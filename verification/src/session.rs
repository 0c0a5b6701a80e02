//! The session with one `CCash` instance: where the instance is, whether a
//! connection to it was established, and what the instance said of itself.

use crate::request::{Method, Request, RequestView};
use crate::responses::CCashError;
use vstd::prelude::*;
use vstd::string::{StrSliceExecFns, StringExecFns};

verus! {

/// The handle of the HTTP transport. Nothing is known of what it holds.
#[verifier::external_type_specification]
#[verifier::external_body]
pub struct ExClient(reqwest::Client);

/// `Clone::clone` of `reqwest::Client` gives another handle of the same
/// transport. Nothing is claimed of it.
pub assume_specification[ <reqwest::Client as Clone>::clone ](client: &reqwest::Client) -> (r:
    reqwest::Client)
;

/// The properties that a `CCash` instance reports of itself.
#[derive(Debug)]
pub struct CCashSessionProperties {
    version: Option<u32>,
    max_log: u32,
    add_user_open: Option<bool>,
    return_on_del: Option<String>,
}

/// The view of `CCashSessionProperties`.
pub struct PropertiesView {
    pub version: Option<u32>,
    pub max_log: u32,
    pub add_user_open: Option<bool>,
    pub return_on_del: Option<Seq<char>>,
}

impl View for CCashSessionProperties {
    type V = PropertiesView;

    closed spec fn view(&self) -> PropertiesView {
        PropertiesView {
            version: self.version,
            max_log: self.max_log,
            add_user_open: self.add_user_open,
            return_on_del: self.return_on_del.deep_view(),
        }
    }
}

impl Clone for CCashSessionProperties {
    fn clone(&self) -> (r: Self)
        ensures
            r@ == self@,
    {
        let return_on_del = match &self.return_on_del {
            Some(account) => Some(account.clone()),
            None => None,
        };
        CCashSessionProperties {
            version: self.version,
            max_log: self.max_log,
            add_user_open: self.add_user_open,
            return_on_del,
        }
    }
}

impl CCashSessionProperties {
    /// Puts together the properties that an instance reported.
    pub fn new(
        version: Option<u32>,
        max_log: u32,
        add_user_open: Option<bool>,
        return_on_del: Option<String>,
    ) -> (r: CCashSessionProperties)
        ensures
            r@ == (PropertiesView {
                version,
                max_log,
                add_user_open,
                return_on_del: return_on_del.deep_view(),
            }),
    {
        CCashSessionProperties { version, max_log, add_user_open, return_on_del }
    }

    /// The version of the instance.
    pub fn get_version(&self) -> (r: Option<u32>)
        ensures
            r == self@.version,
    {
        self.version
    }

    /// The largest number of log entries that the instance returns.
    pub fn get_max_log(&self) -> (r: u32)
        ensures
            r == self@.max_log,
    {
        self.max_log
    }

    /// Whether anyone may register a user without an admin account. An
    /// instance that does not say counts as closed.
    pub fn get_add_user_is_open(&self) -> (r: bool)
        ensures
            r == (self@.add_user_open == Some(true)),
    {
        if let Some(open) = self.add_user_open {
            open
        } else {
            false
        }
    }

    /// The account that receives the funds of a deleted account, where the
    /// instance names one.
    pub fn get_return_on_delete_account(&self) -> (r: &Option<String>)
        ensures
            r.deep_view() == self@.return_on_del,
    {
        &self.return_on_del
    }
}

/// `url` without one slash at its end, if it ends in one.
pub open spec fn without_trailing_slash(url: Seq<char>) -> Seq<char> {
    if url.len() > 0 && url.last() == '/' {
        url.drop_last()
    } else {
        url
    }
}

/// The address under which the API of the instance at `base_url` lies.
pub open spec fn session_url_of(base_url: Seq<char>) -> Seq<char> {
    without_trailing_slash(base_url) + "/api"@
}

/// The view of a `CCashSession`.
pub struct SessionView {
    pub url: Seq<char>,
    pub connected: bool,
    pub client: Option<reqwest::Client>,
    pub properties: Option<PropertiesView>,
}

/// A session has its transport handle and its properties exactly while it is
/// connected: all three, or none.
pub open spec fn is_whole(session: SessionView) -> bool {
    &&& session.connected <==> session.client is Some
    &&& session.connected <==> session.properties is Some
}

/// The session at `url` before a connection was established, and after it
/// was closed.
pub open spec fn disconnected(url: Seq<char>) -> SessionView {
    SessionView { url, connected: false, client: None, properties: None }
}

/// The session after `establish_connection` was given `client` and the
/// properties that were read, if any were: a connected session stays as it
/// is, and so does one for which no properties could be read; otherwise the
/// session is connected and holds both.
pub open spec fn established(
    session: SessionView,
    client: reqwest::Client,
    properties: Option<PropertiesView>,
) -> SessionView {
    if session.connected || properties is None {
        session
    } else {
        SessionView { url: session.url, connected: true, client: Some(client), properties }
    }
}

/// The request that fetches the properties of the instance at `url`.
pub open spec fn properties_fetch(url: Seq<char>) -> RequestView {
    RequestView {
        method: Method::Get,
        url: url + "/properties"@,
        accept: "application/json"@,
        content_type: None,
        auth: None,
        body: None,
    }
}

/// The properties that were read, if any were.
pub open spec fn properties_read(
    properties: Result<CCashSessionProperties, reqwest::Error>,
) -> Option<PropertiesView> {
    match properties {
        Ok(p) => Some(p@),
        Err(_) => None,
    }
}

/// The session after `establish_connection` was given what came back for
/// the fetch of the properties: as `established` says where the transport
/// gave an answer, and as before where it failed.
pub open spec fn session_after_fetch(
    session: SessionView,
    fetched: Result<
        (reqwest::Client, Result<CCashSessionProperties, reqwest::Error>),
        reqwest::Error,
    >,
) -> SessionView {
    match fetched {
        Ok((client, read)) => established(session, client, properties_read(read)),
        Err(_) => session,
    }
}

/// What `establish_connection` returns. On a connected session it succeeds.
/// Otherwise it succeeds where properties were read, reports properties that
/// could not be read, and hands on a failure of the transport.
pub open spec fn is_establish_result(
    r: Result<(), CCashError>,
    connected: bool,
    fetched: Result<
        (reqwest::Client, Result<CCashSessionProperties, reqwest::Error>),
        reqwest::Error,
    >,
) -> bool {
    if connected {
        r is Ok
    } else {
        match fetched {
            Ok((_, Ok(_))) => r is Ok,
            Ok((_, Err(_))) => r matches Err(error) && error is CouldNotParsePropertiesResponse,
            Err(failure) => r matches Err(CCashError::ReqwestError(error)) && error == failure,
        }
    }
}

/// The connection to one `CCash` instance.
#[derive(Debug)]
pub struct CCashSession {
    session_url: String,
    is_connected: bool,
    client: Option<reqwest::Client>,
    properties: Option<CCashSessionProperties>,
}

impl View for CCashSession {
    type V = SessionView;

    closed spec fn view(&self) -> SessionView {
        SessionView {
            url: self.session_url@,
            connected: self.is_connected,
            client: self.client,
            properties: match self.properties {
                Some(p) => Some(p@),
                None => None,
            },
        }
    }
}

impl Clone for CCashSession {
    fn clone(&self) -> (r: Self)
        ensures
            r@.url == self@.url,
            r@.connected == self@.connected,
            r@.properties == self@.properties,
            is_whole(r@),
    {
        proof {
            use_type_invariant(self);
        }
        let client = match &self.client {
            Some(handle) => Some(handle.clone()),
            None => None,
        };
        let properties = match &self.properties {
            Some(read) => Some(read.clone()),
            None => None,
        };
        CCashSession {
            session_url: self.session_url.clone(),
            is_connected: self.is_connected,
            client,
            properties,
        }
    }
}

impl CCashSession {
    #[verifier::type_invariant]
    spec fn whole(self) -> bool {
        is_whole(self@)
    }

    /// Makes a session for the instance at `base_url`. It is not connected.
    pub fn new(base_url: &str) -> (r: CCashSession)
        ensures
            r@ == disconnected(session_url_of(base_url@)),
    {
        let length = base_url.unicode_len();
        let base = if length > 0 && base_url.get_char(length - 1) == '/' {
            base_url.substring_char(0, length - 1)
        } else {
            base_url
        };
        assert(base@ =~= without_trailing_slash(base_url@));
        let mut session_url = String::from_str(base);
        session_url.append("/api");
        CCashSession { session_url, is_connected: false, client: None, properties: None }
    }

    /// The request that has to be sent before `establish_connection`: the
    /// one that fetches the properties of the instance. A connected session
    /// needs none.
    pub fn properties_request(&self) -> (r: Option<Request>)
        ensures
            is_whole(self@),
            match r {
                Some(request) => !self@.connected && request@ == properties_fetch(self@.url),
                None => self@.connected,
            },
    {
        proof {
            use_type_invariant(self);
        }
        if self.is_connected {
            return None;
        }
        let mut url = self.session_url.clone();
        url.append("/properties");
        Some(
            Request {
                method: Method::Get,
                url,
                accept: String::from_str("application/json"),
                content_type: None,
                auth: None,
                body: None,
            },
        )
    }

    /// Establishes the connection, given what came back for the request of
    /// `properties_request`: the transport handle that sent it together with
    /// the properties that were read from the answer, or the failure of the
    /// transport. On a connected session nothing happens. A failure of the
    /// transport is handed on, and properties that could not be read are
    /// reported as such; in both cases the session stays as it was.
    /// Otherwise the session becomes connected and holds the handle and the
    /// properties from then on.
    pub fn establish_connection(
        &mut self,
        fetched: Result<
            (reqwest::Client, Result<CCashSessionProperties, reqwest::Error>),
            reqwest::Error,
        >,
    ) -> (r: Result<(), CCashError>)
        ensures
            final(self)@ == session_after_fetch(old(self)@, fetched),
            is_whole(final(self)@),
            is_establish_result(r, old(self)@.connected, fetched),
            r is Ok <==> final(self)@.connected,
    {
        proof {
            use_type_invariant(&*self);
        }
        if self.is_connected {
            return Ok(());
        }
        match fetched {
            Ok((client, Ok(read))) => {
                let session_url = self.session_url.clone();
                *self = CCashSession {
                    session_url,
                    is_connected: true,
                    client: Some(client),
                    properties: Some(read),
                };
                Ok(())
            },
            Ok((_, Err(_))) => Err(CCashError::CouldNotParsePropertiesResponse),
            Err(failure) => Err(CCashError::ReqwestError(failure)),
        }
    }

    /// Forgets the connection: the handle and the properties go together.
    pub(crate) fn disconnect(&mut self)
        ensures
            final(self)@ == disconnected(old(self)@.url),
    {
        let session_url = self.session_url.clone();
        *self = CCashSession { session_url, is_connected: false, client: None, properties: None };
    }

    /// The address under which the API of the instance lies.
    pub fn get_session_url(&self) -> (r: &str)
        ensures
            r@ == self@.url,
    {
        self.session_url.as_str()
    }

    /// The transport handle, which a connected session has.
    pub fn get_client(&self) -> (r: &Option<reqwest::Client>)
        ensures
            *r == self@.client,
            is_whole(self@),
    {
        proof {
            use_type_invariant(self);
        }
        &self.client
    }

    /// Whether the connection was established.
    pub fn is_connected(&self) -> (r: bool)
        ensures
            r == self@.connected,
            is_whole(self@),
    {
        proof {
            use_type_invariant(self);
        }
        self.is_connected
    }

    /// The properties of the instance, which a connected session has.
    pub fn get_properties(&self) -> (r: &Option<CCashSessionProperties>)
        ensures
            match *r {
                Some(p) => self@.properties == Some(p@),
                None => self@.properties is None,
            },
            is_whole(self@),
    {
        proof {
            use_type_invariant(self);
        }
        &self.properties
    }
}

/// Establishing a connection twice is establishing it once. After a first
/// call that was given properties, the session is connected, so that it asks
/// for no further fetch of the properties; and a second call leaves the
/// session as the first one left it, whatever the second call is given.
pub proof fn lemma_establish_connection_once(
    session: SessionView,
    first: reqwest::Client,
    first_read: PropertiesView,
    second: reqwest::Client,
    second_read: Option<PropertiesView>,
)
    requires
        is_whole(session),
    ensures
        ({
            let once = established(session, first, Some(first_read));
            &&& once.connected
            &&& is_whole(once)
            &&& established(once, second, second_read) == once
        }),
{
}

/// Closing undoes establishing: a session that was not connected, then was
/// connected, and then was closed is as it was at first.
pub proof fn lemma_close_undoes_establish(
    url: Seq<char>,
    client: reqwest::Client,
    read: PropertiesView,
)
    ensures
        disconnected(established(disconnected(url), client, Some(read)).url) == disconnected(url),
        is_whole(disconnected(url)),
{
}

} // verus!
