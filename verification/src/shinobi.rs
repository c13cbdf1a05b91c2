//! The snapshot client: where the surveillance server is asked, and how its answers are read.
//!
//! The requests themselves are made by the caller. This module says which address each
//! request goes to and what each possible answer means.

use crate::error::RelayError;
use crate::monitor::{monitor_ids, Monitor, Snapshot, SnapshotView};
use vstd::prelude::*;
use vstd::string::*;

verus! {

/// How long a single request to the surveillance server may take, in seconds.
pub const REQUEST_TIMEOUT_SECS: u64 = 5;

/// Where the surveillance server lives and the credentials it expects.
#[derive(Debug, PartialEq, Eq)]
pub struct ShinobiApi {
    /// The key of the group whose monitors are relayed.
    pub group_key: String,
    /// The server's address, without a trailing slash.
    pub url: String,
    /// The access token.
    pub token: String,
}

/// `{url}/{token}`: the prefix of every request.
pub open spec fn request_url(url: Seq<char>, token: Seq<char>) -> Seq<char> {
    url + "/"@ + token
}

/// `{url}/{token}/smonitor/{group_key}`: the address of the monitor list.
pub open spec fn monitors_url(url: Seq<char>, token: Seq<char>, group_key: Seq<char>) -> Seq<
    char,
> {
    request_url(url, token) + "/smonitor/"@ + group_key
}

/// `{url}/{token}/jpeg/{group_key}/{monitor_id}/s.jpg`: the address of one camera's
/// current picture.
pub open spec fn photo_url(
    url: Seq<char>,
    token: Seq<char>,
    group_key: Seq<char>,
    monitor_id: Seq<char>,
) -> Seq<char> {
    request_url(url, token) + "/jpeg/"@ + group_key + "/"@ + monitor_id + "/s.jpg"@
}

/// A setting that the snapshot client cannot do without.
#[derive(Clone, Copy, Debug, PartialEq, Eq, Hash, Structural)]
pub enum Setting {
    /// The key of the group whose monitors are relayed.
    GroupKey,
    /// The server's address.
    ShinobiUrl,
    /// The access token.
    ShinobiToken,
}

impl Setting {
    /// The name of the environment variable that holds the setting.
    pub open spec fn variable(self) -> Seq<char> {
        match self {
            Setting::GroupKey => "GROUP_KEY"@,
            Setting::ShinobiUrl => "SHINOBI_URL"@,
            Setting::ShinobiToken => "SHINOBI_TOKEN"@,
        }
    }

    /// The name of the environment variable that holds the setting.
    pub fn name(&self) -> (name: &'static str)
        ensures
            name@ == self.variable(),
    {
        match self {
            Setting::GroupKey => "GROUP_KEY",
            Setting::ShinobiUrl => "SHINOBI_URL",
            Setting::ShinobiToken => "SHINOBI_TOKEN",
        }
    }
}

/// The first setting that is missing, asked in the order group key, address, token.
pub open spec fn first_missing(
    group_key: Option<String>,
    url: Option<String>,
    token: Option<String>,
) -> Option<Setting> {
    if group_key is None {
        Some(Setting::GroupKey)
    } else if url is None {
        Some(Setting::ShinobiUrl)
    } else if token is None {
        Some(Setting::ShinobiToken)
    } else {
        None
    }
}

impl ShinobiApi {
    /// The client for the server at `url`, with its access token and group key.
    pub fn new(url: String, token: String, group_key: String) -> (api: Self)
        ensures
            api.url@ == url@,
            api.token@ == token@,
            api.group_key@ == group_key@,
    {
        ShinobiApi { group_key, url, token }
    }

    /// The client for the settings found at start. All three are required: where one
    /// is missing there is no client, and the error names the first that is.
    pub fn from_settings(
        group_key: Option<String>,
        url: Option<String>,
        token: Option<String>,
    ) -> (result: Result<Self, Setting>)
        ensures
            match first_missing(group_key, url, token) {
                Some(missing) => result == Err::<Self, Setting>(missing),
                None => result is Ok && result->Ok_0.group_key@ == group_key->Some_0@
                    && result->Ok_0.url@ == url->Some_0@ && result->Ok_0.token@
                    == token->Some_0@,
            },
    {
        let group_key = match group_key {
            Some(value) => value,
            None => {
                return Err(Setting::GroupKey);
            },
        };
        let url = match url {
            Some(value) => value,
            None => {
                return Err(Setting::ShinobiUrl);
            },
        };
        let token = match token {
            Some(value) => value,
            None => {
                return Err(Setting::ShinobiToken);
            },
        };
        Ok(ShinobiApi { group_key, url, token })
    }

    /// The base of every request: the server's address followed by the access token.
    pub fn get_request_url(&self) -> (base: String)
        ensures
            base@ == request_url(self.url@, self.token@),
    {
        let mut base = self.url.clone();
        base.append("/");
        base.append(self.token.as_str());
        base
    }

    /// The address that lists the group's monitors.
    pub fn monitors_url(&self) -> (address: String)
        ensures
            address@ == monitors_url(self.url@, self.token@, self.group_key@),
    {
        let mut address = self.get_request_url();
        address.append("/smonitor/");
        address.append(self.group_key.as_str());
        address
    }

    /// The address of the current picture of `monitor`.
    pub fn photo_url(&self, monitor: &Monitor) -> (address: String)
        ensures
            address@ == photo_url(self.url@, self.token@, self.group_key@, monitor@),
    {
        let mut address = self.get_request_url();
        address.append("/jpeg/");
        address.append(self.group_key.as_str());
        address.append("/");
        address.append(monitor.id.as_str());
        address.append("/s.jpg");
        address
    }
}

/// Whether an HTTP status code is one of the 2xx codes.
pub open spec fn is_success(status: u16) -> bool {
    200 <= status <= 299
}

/// Tells whether `status` is one of the 2xx codes.
pub fn status_is_success(status: u16) -> (yes: bool)
    ensures
        yes == is_success(status),
{
    200 <= status && status <= 299
}

/// What came back from the request for the monitor list.
#[derive(Debug, PartialEq, Eq)]
pub enum ListReply {
    /// The request failed on the way, or ran out of time.
    Unreachable,
    /// The server answered with `status`; `monitors` is what its body held, or `None`
    /// when the body was not a JSON array of monitor objects.
    Answered { status: u16, monitors: Option<Vec<Monitor>> },
}

/// A `ListReply` as plain mathematical values.
pub enum ListReplyView {
    Unreachable,
    Answered { status: u16, monitors: Option<Seq<Seq<char>>> },
}

impl View for ListReply {
    type V = ListReplyView;

    open spec fn view(&self) -> ListReplyView {
        match *self {
            ListReply::Unreachable => ListReplyView::Unreachable,
            ListReply::Answered { status, monitors } => ListReplyView::Answered {
                status,
                monitors: match monitors {
                    Some(list) => Some(monitor_ids(list@)),
                    None => None,
                },
            },
        }
    }
}

/// What a reply to the list request means: the monitors in the server's order, or why
/// there are none.
pub open spec fn listed(reply: ListReplyView) -> Result<Seq<Seq<char>>, RelayError> {
    match reply {
        ListReplyView::Unreachable => Err(RelayError::UpstreamUnavailable),
        ListReplyView::Answered { status, monitors } => if !is_success(status) {
            Err(RelayError::UpstreamProtocolError)
        } else {
            match monitors {
                Some(ids) => Ok(ids),
                None => Err(RelayError::UpstreamProtocolError),
            }
        },
    }
}

impl ListReply {
    /// Reads the reply to the list request.
    pub fn monitors(self) -> (result: Result<Vec<Monitor>, RelayError>)
        ensures
            match listed(self@) {
                Ok(ids) => result is Ok && monitor_ids(result->Ok_0@) == ids,
                Err(error) => result == Err::<Vec<Monitor>, RelayError>(error),
            },
    {
        match self {
            ListReply::Unreachable => Err(RelayError::UpstreamUnavailable),
            ListReply::Answered { status, monitors } => {
                if !status_is_success(status) {
                    Err(RelayError::UpstreamProtocolError)
                } else {
                    match monitors {
                        Some(list) => Ok(list),
                        None => Err(RelayError::UpstreamProtocolError),
                    }
                }
            },
        }
    }
}

/// What came back from the request for one camera's picture.
#[derive(Debug, PartialEq, Eq)]
pub enum SnapshotReply {
    /// The request failed on the way, or ran out of time.
    Unreachable,
    /// The server answered with `status` and `body`.
    Answered { status: u16, body: Vec<u8> },
}

/// A `SnapshotReply` as plain mathematical values.
pub enum SnapshotReplyView {
    Unreachable,
    Answered { status: u16, body: Seq<u8> },
}

impl View for SnapshotReply {
    type V = SnapshotReplyView;

    open spec fn view(&self) -> SnapshotReplyView {
        match *self {
            SnapshotReply::Unreachable => SnapshotReplyView::Unreachable,
            SnapshotReply::Answered { status, body } => SnapshotReplyView::Answered {
                status,
                body: body@,
            },
        }
    }
}

/// What a reply to a picture request means for the camera `monitor_id`: its picture, or
/// why there is none.
pub open spec fn fetched(monitor_id: Seq<char>, reply: SnapshotReplyView) -> Result<
    SnapshotView,
    RelayError,
> {
    match reply {
        SnapshotReplyView::Unreachable => Err(RelayError::UpstreamUnavailable),
        SnapshotReplyView::Answered { status, body } => if is_success(status) {
            Ok(SnapshotView { monitor_id, bytes: body })
        } else {
            Err(RelayError::SnapshotUnavailable)
        },
    }
}

impl Monitor {
    /// Reads the reply to the request for this camera's picture.
    pub fn get_photo(&self, reply: SnapshotReply) -> (result: Result<Snapshot, RelayError>)
        ensures
            match fetched(self@, reply@) {
                Ok(picture) => result is Ok && result->Ok_0@ == picture,
                Err(error) => result == Err::<Snapshot, RelayError>(error),
            },
    {
        match reply {
            SnapshotReply::Unreachable => Err(RelayError::UpstreamUnavailable),
            SnapshotReply::Answered { status, body } => {
                if status_is_success(status) {
                    Ok(Snapshot { monitor_id: self.id.clone(), bytes: body })
                } else {
                    Err(RelayError::SnapshotUnavailable)
                }
            },
        }
    }
}

} // verus!
