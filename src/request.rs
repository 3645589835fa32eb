//! Request messages: a command, the protocol version, and at most one
//! attribute, the interface-index filter.
use crate::codec::{
    attrs_view, bits_of_i32, bytes_of_u32, encode_index, i32_at, lemma_le32_bytes, lookup,
    Attribute, ATTR_IFINDEX,
};
use vstd::prelude::*;

verus! {

/// The version of the `nl80211` protocol that requests announce.
pub const GENL_VERSION: u8 = 1;

/// The queries that a request can make.
#[derive(Clone, Copy, Debug, PartialEq, Eq, Structural)]
pub enum Command {
    GetInterface,
    GetStation,
    GetScan,
}

impl Command {
    /// Whether the command is made for one interface, and so carries its
    /// index as a filter.
    pub open spec fn takes_filter(self) -> bool {
        self is GetStation || self is GetScan
    }

    /// The `nl80211` command code.
    pub open spec fn spec_code(self) -> u8 {
        match self {
            Command::GetInterface => 5,
            Command::GetStation => 17,
            Command::GetScan => 32,
        }
    }

    /// The `nl80211` command code.
    pub fn code(&self) -> (r: u8)
        ensures
            r == self.spec_code(),
    {
        match self {
            Command::GetInterface => 5,
            Command::GetStation => 17,
            Command::GetScan => 32,
        }
    }
}

/// Why a request could not be built.
#[derive(Clone, Copy, Debug, PartialEq, Eq, Structural)]
pub enum RequestError {
    /// A filter was given to a command that lists all interfaces.
    UnexpectedFilter,
    /// No filter was given to a command made for one interface.
    MissingFilter,
}

/// A request message, before framing.
#[derive(Clone, Debug)]
pub struct Request {
    pub cmd: Command,
    pub version: u8,
    pub attrs: Vec<Attribute>,
}

/// The attributes of a request with `filter`.
pub open spec fn filter_attrs(filter: Option<i32>) -> Seq<(u16, Seq<u8>)> {
    match filter {
        Some(i) => seq![(ATTR_IFINDEX, bytes_of_u32(bits_of_i32(i)))],
        None => seq![],
    }
}

/// The request for `cmd` with `filter`, as command, version and
/// attributes, or why there is none.
pub open spec fn request_model(cmd: Command, version: u8, filter: Option<i32>) -> Result<
    (Command, u8, Seq<(u16, Seq<u8>)>),
    RequestError,
> {
    if filter is Some && !cmd.takes_filter() {
        Err(RequestError::UnexpectedFilter)
    } else if filter is None && cmd.takes_filter() {
        Err(RequestError::MissingFilter)
    } else {
        Ok((cmd, version, filter_attrs(filter)))
    }
}

/// Builds the request for `cmd`: its attribute list is empty without a
/// filter and holds exactly the interface-index attribute with one. A
/// filter on interface listing, or none on a per-interface query, is
/// refused.
pub fn build_request(cmd: Command, version: u8, filter: Option<i32>) -> (r: Result<
    Request,
    RequestError,
>)
    ensures
        match (r, request_model(cmd, version, filter)) {
            (Ok(req), Ok(m)) => req.cmd == m.0 && req.version == m.1 && attrs_view(req.attrs@)
                == m.2,
            (Err(e), Err(f)) => e == f,
            _ => false,
        },
{
    let mut attrs: Vec<Attribute> = Vec::new();
    match filter {
        Some(i) => {
            if !(cmd == Command::GetStation || cmd == Command::GetScan) {
                return Err(RequestError::UnexpectedFilter);
            }
            attrs.push(encode_index(i));
        },
        None => {
            if cmd == Command::GetStation || cmd == Command::GetScan {
                return Err(RequestError::MissingFilter);
            }
        },
    }
    assert(attrs_view(attrs@) =~= filter_attrs(filter));
    Ok(Request { cmd, version, attrs })
}

/// A request carries an interface-index attribute exactly when its
/// command is the station or the scan query; it carries no other.
pub proof fn lemma_filter_iff_command(cmd: Command, version: u8, filter: Option<i32>)
    requires
        request_model(cmd, version, filter) is Ok,
    ensures
        ({
            let attrs = request_model(cmd, version, filter)->Ok_0.2;
            &&& (lookup(attrs, ATTR_IFINDEX) is Some <==> cmd.takes_filter())
            &&& attrs.len() == (if cmd.takes_filter() { 1int } else { 0int })
        }),
{
}

/// The filter that a request is built with decodes from its attributes to
/// the index it was given.
pub proof fn lemma_filter_round_trip(cmd: Command, version: u8, index: i32)
    requires
        cmd.takes_filter(),
    ensures
        request_model(cmd, version, Some(index)) is Ok,
        i32_at(request_model(cmd, version, Some(index))->Ok_0.2, ATTR_IFINDEX) == Some(index),
{
    lemma_le32_bytes(bits_of_i32(index));
}

} // verus!
