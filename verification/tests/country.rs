use petabroad::country_data::block_content;
use petabroad::country_data::country_info_url;
use petabroad::country_data::notice;
use petabroad::country_data::BlockContent;
use petabroad::country_data::CountryData;
use petabroad::country_data::VaccinesData;
use petabroad::country_data::BACKEND_ADDRESS;
use petabroad::service::answer_from_store;
use petabroad::service::is_valid_country_id;
use petabroad::service::screen;
use petabroad::service::CountryAnswer;
use petabroad::service::COUNTRY_ID_PATTERN;
use petabroad::settings::get_block_icon;
use petabroad::settings::BlockType;
use petabroad::settings::country_view_scale;

#[test]
fn block_icon_of_vaccines() {
    assert_eq!(get_block_icon(BlockType::Vaccine), "http://cdn.onlinewebfonts.com/svg/img_319799.png");
}

#[test]
fn detail_view_margin_is_seven_tenths() {
    assert_eq!((country_view_scale().numerator(), country_view_scale().denominator()), (70, 100));
    assert!(country_view_scale().zooms_out());
}

#[test]
fn info_block_shows_notice_or_list() {
    assert_eq!(block_content(BlockType::Vaccine, &None), BlockContent::NoData);
    let bare = CountryData { id: "PL".to_string(), vaccines: None };
    assert_eq!(block_content(BlockType::Vaccine, &Some(bare)), BlockContent::NoVaccines);
    let empty = CountryData { id: "PL".to_string(), vaccines: Some(vec![]) };
    assert_eq!(block_content(BlockType::Vaccine, &Some(empty)), BlockContent::VaccineList);
    let full = CountryData {
        id: "PL".to_string(),
        vaccines: Some(vec![VaccinesData { name: "Rabies".to_string(), desc: "21 days before".to_string() }]),
    };
    assert_eq!(block_content(BlockType::Vaccine, &Some(full)), BlockContent::VaccineList);
}

#[test]
fn notices_have_their_texts() {
    assert_eq!(notice(BlockContent::NoData), Some("No data for this country"));
    assert_eq!(notice(BlockContent::NoVaccines), Some("No vaccines data for this country"));
    assert_eq!(notice(BlockContent::VaccineList), None);
}

#[test]
fn record_address_names_backend_and_country() {
    assert_eq!(BACKEND_ADDRESS, "localhost:8081");
    assert_eq!(country_info_url("PL"), "http://localhost:8081/country/PL");
    assert_eq!(country_info_url(""), "http://localhost:8081/country/");
    assert_eq!(country_info_url("a b/\u{e9}"), "http://localhost:8081/country/a b/\u{e9}");
}

#[test]
fn country_ids_are_two_to_four_capitals() {
    assert_eq!(COUNTRY_ID_PATTERN, "^[A-Z]{2,4}$");
    for id in ["PL", "USA", "ABCD", "AA", "ZZZZ", "AZ"] {
        assert!(is_valid_country_id(id), "{:?}", id);
    }
    for id in [
        "", "P", "ABCDE", "pl", "Pl", "P1", "PL ", " PL", "PL\n", "\nPL", "P L", "PL-", "A\u{c9}", "\u{391}\u{392}",
        "^[A-Z]{2,4}$", "AB\nCD", "@A", "A[", "ABCDEFGH",
    ] {
        assert!(!is_valid_country_id(id), "{:?}", id);
    }
}

#[test]
fn country_ids_are_checked_for_every_short_ascii_text() {
    let alphabet = ['A', 'M', 'Z', '@', '[', 'a', '0', ' ', '\n'];
    let mut texts: Vec<String> = vec![String::new()];
    for _ in 0..5 {
        let mut longer = Vec::new();
        for text in &texts {
            for c in alphabet {
                let mut next = text.clone();
                next.push(c);
                longer.push(next);
            }
        }
        texts.extend(longer);
        texts.sort();
        texts.dedup();
    }
    for text in texts {
        let expected = (2..=4).contains(&text.chars().count()) && text.chars().all(|c| ('A'..='Z').contains(&c));
        assert_eq!(is_valid_country_id(&text), expected, "{:?}", text);
    }
}

#[test]
fn requests_are_screened_before_the_store_is_asked() {
    assert_eq!(screen("PL"), None);
    assert_eq!(screen("pl"), Some(CountryAnswer::BadRequest));
    assert_eq!(screen("TOOLONG"), Some(CountryAnswer::BadRequest));
    assert_eq!(screen(""), Some(CountryAnswer::BadRequest));
}

#[test]
fn store_results_become_answers() {
    assert_eq!(answer_from_store(None), CountryAnswer::NotFound);
    assert_eq!(
        answer_from_store(Some("{\"id\":\"PL\"}".to_string())),
        CountryAnswer::Found("{\"id\":\"PL\"}".to_string())
    );
    assert_eq!(answer_from_store(Some(String::new())), CountryAnswer::Found(String::new()));
}
