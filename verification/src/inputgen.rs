//! Making the input of a block from a node whose URL is a setting.

use vstd::prelude::*;
use vstd::string::*;

use crate::protocol::BlockInfo;
#[allow(unused_imports)]
use crate::protocol::BlockInfoView;

verus! {

/// The text of the URL that a text stands for, if it stands for one.
pub uninterp spec fn url_text(text: Seq<char>) -> Option<Seq<char>>;

/// Calls url's `Url::parse` and gives the text of the URL: its outcome is named
/// `url_text`.
#[verifier::external_body]
pub(crate) fn parse_url(text: &str) -> (r: Option<String>)
    ensures
        match r {
            Some(url) => url_text(text@) == Some(url@),
            None => url_text(text@) is None,
        },
{
    match url::Url::parse(text) {
        Ok(url) => Some(url.to_string()),
        Err(_) => None,
    }
}

/// Why the input of a block cannot be made.
#[derive(Clone, Copy, Debug, PartialEq, Eq, Structural)]
pub enum InputError {
    /// The URL of the node is not set.
    UrlNotSet,
    /// The URL of the node is not valid.
    UrlInvalid,
}

/// A block whose input is made into a file, the node it is made from, and where
/// it is written.
#[derive(Debug)]
pub struct InputFileSource {
    pub block_number: u64,
    pub rpc_url: String,
    pub folder: String,
    pub filename: String,
}

/// The source of a block's input file: the node with a URL, if there is one.
pub fn input_file_source(
    block_info: &BlockInfo,
    inputs_folder: String,
    rpc_url: Option<String>,
) -> (r: Result<InputFileSource, InputError>)
    ensures
        match rpc_url {
            Some(url) => r is Ok && r->Ok_0.block_number == block_info.block_number
                && r->Ok_0.rpc_url == url && r->Ok_0.folder == inputs_folder
                && r->Ok_0.filename@ == block_info@.filename(),
            None => r == Err::<InputFileSource, InputError>(InputError::UrlInvalid),
        },
{
    match rpc_url {
        Some(rpc_url) => Ok(
            InputFileSource {
                block_number: block_info.block_number,
                rpc_url,
                folder: inputs_folder,
                filename: block_info.filename(),
            },
        ),
        None => Err(InputError::UrlInvalid),
    }
}

/// The source of a block's input file in a folder, with the URL of the node from
/// a setting.
pub fn generate_input_file(
    block_info: &BlockInfo,
    inputs_folder: String,
    rpc_url: &Option<String>,
) -> (r: Result<InputFileSource, InputError>)
    ensures
        match r {
            Ok(source) => {
                &&& rpc_url is Some
                &&& url_text(rpc_url->0@) == Some(source.rpc_url@)
                &&& source.block_number == block_info.block_number
                &&& source.folder == inputs_folder
                &&& source.filename@ == block_info@.filename()
            },
            Err(InputError::UrlNotSet) => rpc_url is None,
            Err(InputError::UrlInvalid) => rpc_url is Some && url_text(rpc_url->0@) is None,
        },
{
    match rpc_url {
        Some(text) => input_file_source(block_info, inputs_folder, parse_url(text.as_str())),
        None => Err(InputError::UrlNotSet),
    }
}

/// A block whose input is made in memory, and the node it is made from.
#[derive(Debug)]
pub struct InputSource {
    pub block_number: u64,
    pub rpc_url: String,
}

/// The source of a block's input: the node with a URL, if there is one.
pub fn input_source(block_info: &BlockInfo, rpc_url: Option<String>) -> (r: Result<
    InputSource,
    InputError,
>)
    ensures
        match rpc_url {
            Some(url) => r is Ok && r->Ok_0.block_number == block_info.block_number
                && r->Ok_0.rpc_url == url,
            None => r == Err::<InputSource, InputError>(InputError::UrlInvalid),
        },
{
    match rpc_url {
        Some(rpc_url) => Ok(InputSource { block_number: block_info.block_number, rpc_url }),
        None => Err(InputError::UrlInvalid),
    }
}

/// The source of a block's input, with the URL of the node from a setting.
pub fn generate_input(block_info: &BlockInfo, rpc_url: &Option<String>) -> (r: Result<
    InputSource,
    InputError,
>)
    ensures
        match r {
            Ok(source) => rpc_url is Some && url_text(rpc_url->0@) == Some(source.rpc_url@)
                && source.block_number == block_info.block_number,
            Err(InputError::UrlNotSet) => rpc_url is None,
            Err(InputError::UrlInvalid) => rpc_url is Some && url_text(rpc_url->0@) is None,
        },
{
    match rpc_url {
        Some(text) => input_source(block_info, parse_url(text.as_str())),
        None => Err(InputError::UrlNotSet),
    }
}

} // verus!
