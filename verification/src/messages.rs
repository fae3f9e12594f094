//! Messages between a client and the screen and power daemon.

use vstd::prelude::*;

verus! {

/// What a client asks of the daemon.
#[derive(Debug, Clone, Copy, PartialEq, Eq)]
pub enum Request {
    /// Screen id, level.
    SetBrightness((u8, u8)),
    /// Screen id.
    GetBrightness(u8),
    PowerOff,
    Reboot,
    /// Screen id.
    EnableScreen(u8),
    /// Screen id.
    DisableScreen(u8),
}

/// What the daemon answers.
#[derive(Debug, Clone, Copy, PartialEq, Eq)]
pub enum Response {
    SetBrightnessSuccess,
    SetBrightnessError,
    /// Screen id, level.
    GetBrightnessSuccess((u8, u8)),
    GetBrightnessError,
    GenericSuccess,
    GenericError,
}

/// A request on its way to the daemon, with the id that its answer will
/// carry.
#[derive(Debug, Clone, Copy, PartialEq, Eq)]
pub struct ToDaemon(u64, Request);

impl ToDaemon {
    /// The id, as a specification value.
    pub closed spec fn spec_id(&self) -> u64 {
        self.0
    }

    /// The request, as a specification value.
    pub closed spec fn spec_request(&self) -> Request {
        self.1
    }

    pub fn new(id: u64, req: Request) -> (msg: Self)
        ensures
            msg.spec_id() == id,
            msg.spec_request() == req,
    {
        ToDaemon(id, req)
    }

    pub fn request(&self) -> (req: &Request)
        ensures
            *req == self.spec_request(),
    {
        &self.1
    }

    pub fn id(&self) -> (id: u64)
        ensures
            id == self.spec_id(),
    {
        self.0
    }
}

/// An answer on its way from the daemon, with the id of the request that it
/// answers.
#[derive(Debug, Clone, Copy, PartialEq, Eq)]
pub struct FromDaemon(u64, Response);

impl FromDaemon {
    /// The id, as a specification value.
    pub closed spec fn spec_id(&self) -> u64 {
        self.0
    }

    /// The response, as a specification value.
    pub closed spec fn spec_response(&self) -> Response {
        self.1
    }

    pub fn new(id: u64, resp: Response) -> (msg: Self)
        ensures
            msg.spec_id() == id,
            msg.spec_response() == resp,
    {
        FromDaemon(id, resp)
    }

    pub fn response(&self) -> (resp: &Response)
        ensures
            *resp == self.spec_response(),
    {
        &self.1
    }

    pub fn id(&self) -> (id: u64)
        ensures
            id == self.spec_id(),
    {
        self.0
    }
}

} // verus!
