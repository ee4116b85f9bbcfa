//! The server binding and the response builder: the exact decision table
//! from an (allowed, succeeded) outcome pair to an HTTP response payload.

use vstd::prelude::*;

verus! {

use vstd::string::*;

/// The payload of one HTTP response: a status code, a body, and whether
/// the body is HTML.
pub struct HttpResponse {
    pub status_code: u16,
    pub body: String,
    pub html: bool,
}

/// The mathematical model of a response payload.
pub struct ResponseModel {
    pub status_code: u16,
    pub body: Seq<char>,
    pub html: bool,
}

impl View for HttpResponse {
    type V = ResponseModel;

    open spec fn view(&self) -> ResponseModel {
        ResponseModel { status_code: self.status_code, body: self.body@, html: self.html }
    }
}

/// The exact response for one outcome pair: a disallowed request gets
/// 401 "does not comply"; an allowed request whose open succeeded gets
/// 200 — a tab-closing HTML snippet when `close_tab` is set, plain "ok"
/// otherwise; any other allowed outcome gets 200 "failed to start.
/// check logs". A disallowed request never reaches the open step, so
/// `did_succeed` is `None` only there.
pub open spec fn response_model(close_tab: bool, is_allowed: bool, did_succeed: Option<
    bool,
>) -> ResponseModel {
    if !is_allowed {
        ResponseModel { status_code: 401, body: "does not comply"@, html: false }
    } else if did_succeed == Some(true) {
        if close_tab {
            ResponseModel {
                status_code: 200,
                body: "<script>window.close()</script>tab should close now"@,
                html: true,
            }
        } else {
            ResponseModel { status_code: 200, body: "ok"@, html: false }
        }
    } else {
        ResponseModel { status_code: 200, body: "failed to start. check logs"@, html: false }
    }
}

/// Where the listener binds and how a successful open is reported back
/// to the browser.
pub struct ServerConfig {
    port: u16,
    addr: String,
    close_tab: bool,
}

impl ServerConfig {
    /// The port the listener binds to.
    pub closed spec fn spec_port(&self) -> u16 {
        self.port
    }

    /// The address the listener binds to.
    pub closed spec fn spec_addr(&self) -> Seq<char> {
        self.addr@
    }

    /// Whether a successful open answers with the tab-closing snippet.
    pub closed spec fn spec_close_tab(&self) -> bool {
        self.close_tab
    }

    /// The compiled-in binding: every address, port 80, close the tab.
    pub open spec fn is_default_binding(&self) -> bool {
        self.spec_port() == 80 && self.spec_addr() == "0.0.0.0"@ && self.spec_close_tab()
    }

    pub fn new(port: u16, addr: String, close_tab: bool) -> (r: Self)
        ensures
            r.spec_port() == port,
            r.spec_addr() == addr@,
            r.spec_close_tab() == close_tab,
    {
        ServerConfig { port, addr, close_tab }
    }

    pub fn port(&self) -> (r: u16)
        ensures
            r == self.spec_port(),
    {
        self.port
    }

    pub fn addr(&self) -> (r: &str)
        ensures
            r@ == self.spec_addr(),
    {
        self.addr.as_str()
    }

    pub fn close_tab(&self) -> (r: bool)
        ensures
            r == self.spec_close_tab(),
    {
        self.close_tab
    }

    /// Build the response payload for one request's outcome, by the
    /// decision table.
    pub fn handle_request(&self, is_allowed: bool, did_succeed: Option<bool>) -> (r: HttpResponse)
        ensures
            r@ == response_model(self.spec_close_tab(), is_allowed, did_succeed),
    {
        if is_allowed {
            let succeeded = match did_succeed {
                Some(true) => true,
                _ => false,
            };
            if succeeded {
                if self.close_tab {
                    HttpResponse {
                        status_code: 200,
                        body: String::from_str(
                            "<script>window.close()</script>tab should close now",
                        ),
                        html: true,
                    }
                } else {
                    HttpResponse { status_code: 200, body: String::from_str("ok"), html: false }
                }
            } else {
                HttpResponse {
                    status_code: 200,
                    body: String::from_str("failed to start. check logs"),
                    html: false,
                }
            }
        } else {
            HttpResponse {
                status_code: 401,
                body: String::from_str("does not comply"),
                html: false,
            }
        }
    }
}

impl Default for ServerConfig {
    /// The compiled-in binding.
    fn default() -> (r: Self)
        ensures
            r.is_default_binding(),
    {
        ServerConfig { port: 80, addr: String::from_str("0.0.0.0"), close_tab: true }
    }
}

} // verus!
