//! A connection to the `nl80211` family: the identifier that family
//! resolution gave, and the requests and dumps made with it.
use crate::dump::Dump;
use crate::records::Record;
use crate::request::{build_request, request_model, Command, Request, GENL_VERSION};
use crate::codec::attrs_view;
use vstd::prelude::*;

verus! {

/// Why a connection could not be made.
#[derive(Clone, Copy, Debug, PartialEq, Eq, Structural)]
pub enum ConnectError {
    /// The netlink socket could not be opened.
    Transport,
    /// The kernel knows no family of the requested name.
    UnknownFamily,
}

/// A connection whose family identifier has been resolved; it does not
/// change afterwards.
#[derive(Clone, Copy, Debug, PartialEq, Eq, Structural)]
pub struct Connection {
    family_id: u16,
}

/// `req` is the request that `request_model` gives for `cmd` and
/// `filter` at the protocol version of this library.
pub open spec fn is_request(req: Request, cmd: Command, filter: Option<i32>) -> bool {
    request_model(cmd, GENL_VERSION, filter) == Ok::<_, crate::request::RequestError>(
        (req.cmd, req.version, attrs_view(req.attrs@)),
    )
}

impl Connection {
    /// The resolved family identifier.
    pub closed spec fn spec_family_id(&self) -> u16 {
        self.family_id
    }

    /// Completes a connection from the result of family resolution: the
    /// resolved identifier, or `None` where the kernel knows no such
    /// family, in which case there is no connection.
    pub fn establish(resolved: Option<u16>) -> (r: Result<Connection, ConnectError>)
        ensures
            match resolved {
                Some(id) => r matches Ok(c) && c.spec_family_id() == id,
                None => r == Err::<Connection, ConnectError>(ConnectError::UnknownFamily),
            },
    {
        match resolved {
            Some(family_id) => Ok(Connection { family_id }),
            None => Err(ConnectError::UnknownFamily),
        }
    }

    /// The resolved family identifier.
    pub fn family_id(&self) -> (r: u16)
        ensures
            r == self.spec_family_id(),
    {
        self.family_id
    }

    fn request(cmd: Command, filter: Option<i32>) -> (r: Request)
        requires
            filter is Some <==> cmd.takes_filter(),
        ensures
            is_request(r, cmd, filter),
    {
        match build_request(cmd, GENL_VERSION, filter) {
            Ok(req) => req,
            Err(_) => {
                proof {
                    assert(false);
                }
                Request { cmd, version: GENL_VERSION, attrs: Vec::new() }
            },
        }
    }

    /// The request that lists all wireless interfaces.
    pub fn interfaces_request(&self) -> (r: Request)
        ensures
            is_request(r, Command::GetInterface, None),
    {
        Self::request(Command::GetInterface, None)
    }

    /// The request that lists the stations of interface `index`.
    pub fn stations_request(&self, index: i32) -> (r: Request)
        ensures
            is_request(r, Command::GetStation, Some(index)),
    {
        Self::request(Command::GetStation, Some(index))
    }

    /// The request that lists the scan results of interface `index`.
    pub fn bss_request(&self, index: i32) -> (r: Request)
        ensures
            is_request(r, Command::GetScan, Some(index)),
    {
        Self::request(Command::GetScan, Some(index))
    }

    /// A fresh dump that reads the records of this connection's family.
    pub fn start_dump<T: Record>(&self) -> (r: Dump<T>)
        ensures
            r.wf(),
            r.sets() == Seq::<crate::dump::AttrSet>::empty(),
            r.spec_status() == crate::dump::Status::Receiving,
            r.spec_family_id() == self.spec_family_id(),
    {
        Dump::new(self.family_id)
    }
}

} // verus!
