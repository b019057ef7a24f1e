//! What is known about a country, and what an info block makes of it.

use vstd::prelude::*;
use vstd::string::StringExecFns;
use crate::settings::BlockType;

verus! {

/// One vaccine that a country asks for.
#[derive(Clone, Debug, PartialEq)]
pub struct VaccinesData {
    pub name: String,
    pub desc: String,
}

/// The record of one country.
#[derive(Clone, Debug, PartialEq)]
pub struct CountryData {
    pub id: String,
    pub vaccines: Option<Vec<VaccinesData>>,
}

/// Where the country records are served.
pub const BACKEND_ADDRESS: &'static str = "localhost:8081";

/// What an info block shows.
#[derive(Debug, Clone, Copy, PartialEq, Eq, Structural)]
pub enum BlockContent {
    /// The notice that nothing is known about the country.
    NoData,
    /// The notice that the country's record holds no vaccines.
    NoVaccines,
    /// The list of the record's vaccines, each with name and description.
    VaccineList,
}

/// What a block of kind `block_type` shows for `data`.
pub open spec fn content_of(block_type: BlockType, data: Option<CountryData>) -> BlockContent {
    match data {
        None => BlockContent::NoData,
        Some(country) => match block_type {
            BlockType::Vaccine => match country.vaccines {
                None => BlockContent::NoVaccines,
                Some(_) => BlockContent::VaccineList,
            },
        },
    }
}

/// Decides what a block of kind `block_type` shows for `data`.
pub fn block_content(block_type: BlockType, data: &Option<CountryData>) -> (content: BlockContent)
    ensures
        content == content_of(block_type, *data),
{
    match data {
        None => BlockContent::NoData,
        Some(country) => match block_type {
            BlockType::Vaccine => match &country.vaccines {
                None => BlockContent::NoVaccines,
                Some(_) => BlockContent::VaccineList,
            },
        },
    }
}

/// The notice that stands for `content`, if it is one.
pub open spec fn notice_of(content: BlockContent) -> Option<Seq<char>> {
    match content {
        BlockContent::NoData => Some("No data for this country"@),
        BlockContent::NoVaccines => Some("No vaccines data for this country"@),
        BlockContent::VaccineList => None,
    }
}

/// The notice that stands for `content`, if it is one.
pub fn notice(content: BlockContent) -> (text: Option<&'static str>)
    ensures
        match text {
            Some(t) => notice_of(content) == Some(t@),
            None => notice_of(content) is None,
        },
{
    match content {
        BlockContent::NoData => Some("No data for this country"),
        BlockContent::NoVaccines => Some("No vaccines data for this country"),
        BlockContent::VaccineList => None,
    }
}

/// The address of the record of the country `id`.
pub open spec fn record_address(id: Seq<char>) -> Seq<char> {
    "http://"@ + BACKEND_ADDRESS@ + "/country/"@ + id
}

/// The address at which the record of the country `id` is asked for.
pub fn country_info_url(id: &str) -> (address: String)
    ensures
        address@ == record_address(id@),
{
    let mut address = String::from_str("http://");
    address.append(BACKEND_ADDRESS);
    address.append("/country/");
    address.append(id);
    address
}

} // verus!
