//! The server: how it is set up, where a request goes, and what it answers itself.
use vstd::prelude::*;
use vstd::string::*;
use vstd::utf8::*;

use crate::emulation::Emulation;
use crate::export;
use crate::export::{ExportFormat, ExportJob};
use crate::headers;
use crate::launch::PrintMode;
use crate::message;
use crate::message::WebsocketMessage;
use crate::response;
use crate::response::{Content, Reply, ResBody, Response};
use crate::state;
use crate::state::{State, Store};
use crate::text;
use crate::traffic::{Record, Traffic, TrafficHead};

verus! {

broadcast use vstd::string::group_string_axioms;

/// Under this address a client finds the certificate.
pub const CERT_PREFIX: &'static str = "http://proxymore.local/";

/// Under this path a client finds the web interface.
pub const WEB_PREFIX: &'static str = "/__proxymore__";

/// How long traffic is held back before it is given up.
pub const RULE_TIMEOUT_SECONDS: usize = 300;

/// The authority that signs certificates for the destinations.
#[derive(Debug)]
pub struct CertificateAuthority {
    pub cert_pem: String,
}

impl CertificateAuthority {
    /// The authority's own certificate.
    pub fn ca_cert_pem(&self) -> (r: String)
        ensures
            r@ == self.cert_pem@,
    {
        self.cert_pem.clone()
    }
}

/// A filter on the title of an exchange.
#[derive(Debug)]
pub struct TitleFilter {
    pub pattern: String,
}

/// The pages that the server hands out.
#[derive(Debug)]
pub struct Pages {
    pub web_index: String,
    pub cert_index: String,
}

/// The settings of a server that is to be built.
#[derive(Debug)]
pub struct ServerBuilder {
    pub ca: CertificateAuthority,
    pub pages: Pages,
    pub reverse_proxy_url: Option<String>,
    pub emulation: Emulation,
    pub cert_verification: bool,
    pub title_filters: Vec<TitleFilter>,
    pub mime_filters: Vec<String>,
    pub web: bool,
    pub print_mode: PrintMode,
}

/// Whether settings are those to begin with.
pub open spec fn is_fresh(
    builder: ServerBuilder,
    ca: CertificateAuthority,
    pages: Pages,
) -> bool {
    &&& builder.ca == ca
    &&& builder.pages == pages
    &&& builder.reverse_proxy_url is None
    &&& builder.emulation == Emulation::Firefox147
    &&& builder.cert_verification
    &&& builder.title_filters@.len() == 0
    &&& builder.mime_filters@.len() == 0
    &&& !builder.web
    &&& builder.print_mode == PrintMode::Markdown
}

/// Whether a server has these settings, and nothing has happened to it yet.
pub open spec fn is_built<W>(server: Server<W>, builder: ServerBuilder) -> bool {
    &&& server.state@ == Store::<W>::start(builder.print_mode)
    &&& server.ca == builder.ca
    &&& server.pages == builder.pages
    &&& server.reverse_proxy_url == builder.reverse_proxy_url
    &&& server.emulation == builder.emulation
    &&& server.cert_verification == builder.cert_verification
    &&& server.title_filters == builder.title_filters
    &&& server.mime_filters == builder.mime_filters
    &&& server.web == builder.web
}

impl ServerBuilder {
    /// The settings to begin with.
    pub fn new(ca: CertificateAuthority, pages: Pages) -> (r: Self)
        ensures
            r.ca == ca,
            r.pages == pages,
            r.reverse_proxy_url is None,
            r.emulation == Emulation::Firefox147,
            r.cert_verification,
            r.title_filters@.len() == 0,
            r.mime_filters@.len() == 0,
            !r.web,
            r.print_mode == PrintMode::Markdown,
            is_fresh(r, ca, pages),
    {
        ServerBuilder {
            ca,
            pages,
            reverse_proxy_url: None,
            emulation: Emulation::Firefox147,
            cert_verification: true,
            title_filters: Vec::new(),
            mime_filters: Vec::new(),
            web: false,
            print_mode: PrintMode::Markdown,
        }
    }

    /// Sets the URL to which requests without a host of their own go.
    pub fn reverse_proxy_url(self, reverse_proxy_url: Option<String>) -> (r: Self)
        ensures
            r == (ServerBuilder { reverse_proxy_url, ..self }),
    {
        ServerBuilder { reverse_proxy_url, ..self }
    }

    /// Sets the browser that the server passes for.
    pub fn emulation(self, emulation: Emulation) -> (r: Self)
        ensures
            r == (ServerBuilder { emulation, ..self }),
    {
        ServerBuilder { emulation, ..self }
    }

    /// Sets whether the certificates of destinations are verified.
    pub fn cert_verification(self, cert_verification: bool) -> (r: Self)
        ensures
            r == (ServerBuilder { cert_verification, ..self }),
    {
        ServerBuilder { cert_verification, ..self }
    }

    /// Sets the filters on titles.
    pub fn title_filters(self, filters: Vec<TitleFilter>) -> (r: Self)
        ensures
            r == (ServerBuilder { title_filters: filters, ..self }),
    {
        ServerBuilder { title_filters: filters, ..self }
    }

    /// Sets the filters on media types.
    pub fn mime_filters(self, mime_filters: Vec<String>) -> (r: Self)
        ensures
            r == (ServerBuilder { mime_filters, ..self }),
    {
        ServerBuilder { mime_filters, ..self }
    }

    /// Sets whether the web interface is offered.
    pub fn web(self, web: bool) -> (r: Self)
        ensures
            r == (ServerBuilder { web, ..self }),
    {
        ServerBuilder { web, ..self }
    }

    /// Sets what is written to the console.
    pub fn print_mode(self, print_mode: PrintMode) -> (r: Self)
        ensures
            r == (ServerBuilder { print_mode, ..self }),
    {
        ServerBuilder { print_mode, ..self }
    }

    /// The server with these settings, which keeps bodies under `temp_dir`.
    pub fn build<W>(self, temp_dir: String) -> (r: Server<W>)
        ensures
            r.wf(),
            r.state@ == Store::<W>::start(self.print_mode),
            r.ca == self.ca,
            r.pages == self.pages,
            r.reverse_proxy_url == self.reverse_proxy_url,
            r.emulation == self.emulation,
            r.cert_verification == self.cert_verification,
            r.title_filters == self.title_filters,
            r.mime_filters == self.mime_filters,
            r.web == self.web,
            r.temp_dir == temp_dir,
            is_built(r, self),
    {
        Server {
            ca: self.ca,
            pages: self.pages,
            reverse_proxy_url: self.reverse_proxy_url,
            emulation: self.emulation,
            cert_verification: self.cert_verification,
            title_filters: self.title_filters,
            mime_filters: self.mime_filters,
            web: self.web,
            state: State::new(self.print_mode),
            temp_dir,
        }
    }
}

/// The name of the directory for the bodies that a process keeps.
pub fn temp_dir_name(process_id: usize) -> (r: String)
    ensures
        r@ == "proxymore-"@ + text::decimal(process_id as nat),
{
    text::chain("proxymore-", text::decimal_text(process_id).as_str())
}

/// The server. `W` is the channel to one who waits for traffic that is held back.
pub struct Server<W> {
    pub ca: CertificateAuthority,
    pub pages: Pages,
    pub reverse_proxy_url: Option<String>,
    pub emulation: Emulation,
    pub cert_verification: bool,
    pub title_filters: Vec<TitleFilter>,
    pub mime_filters: Vec<String>,
    pub web: bool,
    pub state: State<W>,
    pub temp_dir: String,
}

/// Where a request goes.
#[derive(Debug)]
pub enum Route {
    /// It names no host, and there is no URL to forward to.
    Nowhere,
    /// The certificate pages, at a path.
    Certificate(String),
    /// The web interface, which is switched off.
    WebDisabled,
    /// The web interface, which takes no such method.
    WebMethod,
    /// The index of the web interface.
    WebIndex,
    /// The feed of summaries.
    Traffics,
    /// The feed of a WebSocket.
    Websocket(String),
    /// All exchanges, in a format.
    Export(String),
    /// One exchange, in a format.
    ExportOne(String, String),
    /// The certificate pages, from within the web interface.
    WebCertificate(String),
    /// The web interface, at a path that it does not have.
    WebUnknown,
    /// A destination.
    Forward(String),
}

/// Where a request goes, with the texts as contents.
pub enum Goal {
    Nowhere,
    Certificate(Seq<char>),
    WebDisabled,
    WebMethod,
    WebIndex,
    Traffics,
    Websocket(Seq<char>),
    Export(Seq<char>),
    ExportOne(Seq<char>, Seq<char>),
    WebCertificate(Seq<char>),
    WebUnknown,
    Forward(Seq<char>),
}

impl View for Route {
    type V = Goal;

    open spec fn view(&self) -> Goal {
        match self {
            Route::Nowhere => Goal::Nowhere,
            Route::Certificate(path) => Goal::Certificate(path@),
            Route::WebDisabled => Goal::WebDisabled,
            Route::WebMethod => Goal::WebMethod,
            Route::WebIndex => Goal::WebIndex,
            Route::Traffics => Goal::Traffics,
            Route::Websocket(id) => Goal::Websocket(id@),
            Route::Export(format) => Goal::Export(format@),
            Route::ExportOne(id, format) => Goal::ExportOne(id@, format@),
            Route::WebCertificate(path) => Goal::WebCertificate(path@),
            Route::WebUnknown => Goal::WebUnknown,
            Route::Forward(uri) => Goal::Forward(uri@),
        }
    }
}

/// The URI that a request means. One that begins with a slash names no host: it is taken below the
/// URL to forward to, unless it asks for the web interface.
pub open spec fn meant_uri(req_uri: Seq<char>, base: Option<Seq<char>>) -> Option<Seq<char>> {
    if !text::begins_with(req_uri, "/"@) || text::begins_with(req_uri, "/__proxymore__"@) {
        Some(req_uri)
    } else {
        match base {
            Some(url) => Some(url + req_uri),
            None => None,
        }
    }
}

/// Where a request for a path of the web interface goes.
pub open spec fn web_goal(path: Seq<char>, query: Seq<char>) -> Goal {
    if path == ""@ || path == "/"@ {
        Goal::WebIndex
    } else if path == "/subscribe/traffics"@ {
        Goal::Traffics
    } else if text::begins_with(path, "/subscribe/websocket/"@) {
        Goal::Websocket(path.skip("/subscribe/websocket/"@.len() as int))
    } else if path == "/traffics"@ {
        Goal::Export(query)
    } else if text::begins_with(path, "/traffic/"@) {
        Goal::ExportOne(path.skip("/traffic/"@.len() as int), query)
    } else if text::begins_with(path, "/certificate/"@) {
        Goal::WebCertificate(path.skip("/certificate/"@.len() as int))
    } else {
        Goal::WebUnknown
    }
}

/// Where a request goes. What follows a question mark tells nothing of it.
pub open spec fn goal_of(
    req_uri: Seq<char>,
    method: Seq<char>,
    base: Option<Seq<char>>,
    web: bool,
) -> Goal {
    match meant_uri(req_uri, base) {
        None => Goal::Nowhere,
        Some(uri) => {
            let path = text::before_first(uri, '?');
            if text::begins_with(path, "http://proxymore.local/"@) {
                Goal::Certificate(path.skip("http://proxymore.local/"@.len() as int))
            } else if text::begins_with(path, "/__proxymore__"@) {
                if !web {
                    Goal::WebDisabled
                } else if method != "GET"@ {
                    Goal::WebMethod
                } else {
                    web_goal(
                        path.skip("/__proxymore__"@.len() as int),
                        text::after_first(req_uri, '?'),
                    )
                }
            } else {
                Goal::Forward(uri)
            }
        },
    }
}

fn web_route(path: &str, query: &str) -> (r: Route)
    ensures
        r@ == web_goal(path@, query@),
{
    if text::same(path, "") || text::same(path, "/") {
        Route::WebIndex
    } else if text::same(path, "/subscribe/traffics") {
        Route::Traffics
    } else if let Some(id) = text::strip(path, "/subscribe/websocket/") {
        Route::Websocket(id.to_owned())
    } else if text::same(path, "/traffics") {
        Route::Export(query.to_owned())
    } else if let Some(id) = text::strip(path, "/traffic/") {
        Route::ExportOne(id.to_owned(), query.to_owned())
    } else if let Some(rest) = text::strip(path, "/certificate/") {
        Route::WebCertificate(rest.to_owned())
    } else {
        Route::WebUnknown
    }
}

/// What the server does with a request: it answers, it has exchanges rendered for an answer that
/// it has begun, or it forwards the request to a URI.
#[derive(Debug)]
pub enum Handled {
    Respond(Response),
    Render(Response, ExportJob),
    RenderOne(Response, Traffic, String),
    Forward(String),
}

/// The media type of pages.
pub open spec fn html() -> Seq<char> {
    "text/html; charset=UTF-8"@
}

/// The media type of feeds.
pub open spec fn ndjson() -> Seq<char> {
    "application/x-ndjson; charset=UTF-8"@
}

/// An answer from the certificate pages: the page itself, the certificate under its two names, or
/// nothing.
pub open spec fn certificate_reply(
    reply: Reply,
    path: Seq<char>,
    page: Seq<char>,
    pem: Seq<char>,
) -> Reply {
    if path == ""@ {
        reply.text(page).field("content-type"@, html())
    } else if path == "proxymore-ca-cert.cer"@ || path == "proxymore-ca-cert.pem"@ {
        reply.text(pem).field("content-type"@, "application/x-x509-ca-cert"@).field(
            "content-disposition"@,
            "attachment; filename=\""@ + path + "\""@,
        )
    } else {
        reply.status(response::NOT_FOUND)
    }
}

/// The number that the path of an exchange or a WebSocket gives.
pub open spec fn path_number(id: Seq<char>) -> Option<nat> {
    text::bounded_value(id, usize::MAX as nat)
}

/// An answer that tells of an error.
pub open spec fn error_reply(reply: Reply, error: Seq<char>) -> Reply {
    reply.status(response::INTERNAL_SERVER_ERROR).text(error)
}

/// An answer that opens the feed of a WebSocket, or tells that there is none.
pub open spec fn websocket_reply<W>(reply: Reply, store: Store<W>, id: Seq<char>) -> Reply {
    match path_number(id) {
        None => reply.status(response::BAD_REQUEST).text("Invalid id"@),
        Some(n) => if 1 <= n <= store.sockets.len() {
            reply.content(Content::Messages(n as usize, store.sockets[n - 1])).fresh(ndjson())
        } else {
            reply.status(response::NOT_FOUND).text("Not found websocket"@)
        },
    }
}

/// What becomes of a request for all exchanges in a format.
pub open spec fn exports_all<W>(
    handled: Handled,
    reply: Reply,
    store: Store<W>,
    format: Seq<char>,
) -> bool {
    match handled {
        Handled::Render(res, ExportJob::Traffics(f, list)) => {
            &&& res@ == reply
            &&& export::format_of(format) == Some(f)
            &&& f != ExportFormat::Heads
            &&& state::record_views(list@) == store.records
        },
        Handled::Render(res, ExportJob::Heads(heads)) => {
            &&& res@ == reply
            &&& export::format_of(format) == Some(ExportFormat::Heads)
            &&& state::head_views(heads@) == state::all_heads(store.records)
        },
        Handled::Respond(res) => {
            &&& res@ == error_reply(reply, "Unsupported format: "@ + format)
            &&& export::format_of(format) is None
        },
        _ => false,
    }
}

/// What becomes of a request for one exchange in a format.
pub open spec fn exports_one<W>(
    handled: Handled,
    reply: Reply,
    store: Store<W>,
    id: Seq<char>,
    format: Seq<char>,
) -> bool {
    match (handled, path_number(id)) {
        (Handled::RenderOne(res, t, f), Some(n)) => {
            &&& res@ == reply
            &&& 1 <= n <= store.records.len()
            &&& t@ == store.records[n - 1]
            &&& f@ == format
        },
        (Handled::Respond(res), Some(n)) => {
            &&& !(1 <= n <= store.records.len())
            &&& res@ == error_reply(reply, "Not found traffic "@ + text::decimal(n))
        },
        (Handled::Respond(res), None) => res@ == reply.status(response::BAD_REQUEST).text(
            "Invalid id"@,
        ),
        _ => false,
    }
}

/// An answer that is made once exchanges have been rendered: the rendering with its media type, or
/// the error.
pub open spec fn rendered_reply(
    reply: Reply,
    rendered: Result<(Seq<char>, Seq<char>), Seq<char>>,
) -> Reply {
    match rendered {
        Ok((data, media)) => if headers::is_value(encode_utf8(media)) {
            reply.text(data).fresh(media)
        } else {
            error_reply(reply, "failed to parse header value"@)
        },
        Err(error) => error_reply(reply, error),
    }
}

impl<W> Server<W> {
    /// The state is well formed.
    pub open spec fn wf(&self) -> bool {
        self.state.wf()
    }

    /// The URL to forward to.
    pub open spec fn base(&self) -> Option<Seq<char>> {
        text::optional_text(self.reverse_proxy_url)
    }

    /// What the server does with a request that goes to `goal`.
    pub open spec fn handles(&self, handled: Handled, goal: Goal) -> bool {
        let web = Reply::bare(response::OK).cors();
        match goal {
            Goal::Nowhere => handled matches Handled::Respond(res) && res@ == Reply::bare(
                response::INTERNAL_SERVER_ERROR,
            ).text("No reserver proxy url"@),
            Goal::Certificate(path) => handled matches Handled::Respond(res) && res@
                == certificate_reply(
                Reply::bare(response::OK),
                path,
                self.pages.cert_index@,
                self.ca.cert_pem@,
            ),
            Goal::WebDisabled => handled matches Handled::Respond(res) && res@ == Reply::bare(
                response::BAD_REQUEST,
            ).text(
                "The web interface is disabled. To enable it, run the command with the `--web` flag."@,
            ),
            Goal::WebMethod => handled matches Handled::Respond(res) && res@ == Reply::bare(
                response::METHOD_NOT_ALLOWED,
            ),
            Goal::WebIndex => handled matches Handled::Respond(res) && res@ == web.text(
                self.pages.web_index@,
            ).fresh(html()),
            Goal::Traffics => handled matches Handled::Respond(res) && res@ == web.content(
                Content::Heads(state::all_heads(self.state@.records)),
            ).fresh(ndjson()),
            Goal::Websocket(id) => handled matches Handled::Respond(res) && res@
                == websocket_reply(web, self.state@, id),
            Goal::Export(format) => exports_all(handled, web, self.state@, format),
            Goal::ExportOne(id, format) => exports_one(handled, web, self.state@, id, format),
            Goal::WebCertificate(path) => handled matches Handled::Respond(res) && res@
                == certificate_reply(web, path, self.pages.cert_index@, self.ca.cert_pem@),
            Goal::WebUnknown => handled matches Handled::Respond(res) && res@ == web.status(
                response::NOT_FOUND,
            ),
            Goal::Forward(uri) => handled matches Handled::Forward(to) && to@ == uri,
        }
    }

    /// The state.
    pub fn state(&self) -> (r: &State<W>)
        ensures
            *r == self.state,
    {
        &self.state
    }

    /// Finds out where a request goes.
    pub fn route(&self, req_uri: &str, method: &str) -> (r: Route)
        ensures
            r@ == goal_of(req_uri@, method@, self.base(), self.web),
    {
        let uri: String = if !text::begins(req_uri, "/") || text::begins(req_uri, WEB_PREFIX) {
            req_uri.to_owned()
        } else {
            match &self.reverse_proxy_url {
                Some(base_url) => text::chain(base_url.as_str(), req_uri),
                None => {
                    return Route::Nowhere;
                },
            }
        };
        let path: &str = text::before(uri.as_str(), '?');
        if let Some(rest) = text::strip(path, CERT_PREFIX) {
            Route::Certificate(rest.to_owned())
        } else if let Some(rest) = text::strip(path, WEB_PREFIX) {
            if !self.web {
                Route::WebDisabled
            } else if !text::same(method, "GET") {
                Route::WebMethod
            } else {
                web_route(rest, text::after(req_uri, '?'))
            }
        } else {
            Route::Forward(uri)
        }
    }

    fn handle_cert_index(&self, res: &mut Response, path: &str)
        requires
            response::is_own(old(res)@),
        ensures
            final(res)@ == certificate_reply(
                old(res)@,
                path@,
                self.pages.cert_index@,
                self.ca.cert_pem@,
            ),
    {
        proof {
            response::lemma_own_names();
        }
        if text::same(path, "") {
            res.set_res_body(self.pages.cert_index.clone());
            proof {
                reveal_strlit("text/html; charset=UTF-8");
                headers::lemma_plain_value(html());
            }
            res.set_field("content-type", "text/html; charset=UTF-8");
        } else if text::same(path, "proxymore-ca-cert.cer") || text::same(
            path,
            "proxymore-ca-cert.pem",
        ) {
            res.set_res_body(self.ca.ca_cert_pem());
            let mut disposition: String = text::chain("attachment; filename=\"", path);
            disposition.append("\"");
            proof {
                reveal_strlit("application/x-x509-ca-cert");
                reveal_strlit("attachment; filename=\"");
                reveal_strlit("\"");
                reveal_strlit("proxymore-ca-cert.cer");
                reveal_strlit("proxymore-ca-cert.pem");
                headers::lemma_plain_value("application/x-x509-ca-cert"@);
                headers::lemma_plain_value(disposition@);
            }
            res.set_field("content-type", "application/x-x509-ca-cert");
            res.set_field("content-disposition", disposition.as_str());
        } else {
            res.status = response::NOT_FOUND;
        }
    }

    fn handle_web_index(&self, res: &mut Response)
        requires
            response::is_own(old(res)@),
        ensures
            final(res)@ == old(res)@.text(self.pages.web_index@).fresh(html()),
    {
        res.set_res_body(self.pages.web_index.clone());
        proof {
            reveal_strlit("text/html; charset=UTF-8");
            headers::lemma_plain_value(html());
        }
        res.set_fresh("text/html; charset=UTF-8");
    }

    fn handle_subscribe_traffics(&self, res: &mut Response)
        requires
            self.wf(),
            response::is_own(old(res)@),
        ensures
            final(res)@ == old(res)@.content(
                Content::Heads(state::all_heads(self.state@.records)),
            ).fresh(ndjson()),
    {
        let heads: Vec<TrafficHead> = self.state.list_heads();
        res.body = ResBody::Heads(heads);
        proof {
            reveal_strlit("application/x-ndjson; charset=UTF-8");
            headers::lemma_plain_value(ndjson());
        }
        res.set_fresh("application/x-ndjson; charset=UTF-8");
    }

    fn handle_subscribe_websocket(&self, res: &mut Response, id: &str)
        requires
            self.wf(),
            response::is_own(old(res)@),
        ensures
            final(res)@ == websocket_reply(old(res)@, self.state@, id@),
    {
        let id: usize = match text::parse_unsigned(id, usize::MAX as u64) {
            Some(n) => n as usize,
            None => {
                res.status = response::BAD_REQUEST;
                res.set_res_body("Invalid id".to_owned());
                return ;
            },
        };
        let messages: Vec<WebsocketMessage> = match self.state.subscribe_websocket(id) {
            Some(messages) => messages,
            None => {
                res.status = response::NOT_FOUND;
                res.set_res_body("Not found websocket".to_owned());
                return ;
            },
        };
        res.body = ResBody::Messages(id, messages);
        proof {
            reveal_strlit("application/x-ndjson; charset=UTF-8");
            headers::lemma_plain_value(ndjson());
        }
        res.set_fresh("application/x-ndjson; charset=UTF-8");
    }

    fn handle_list_traffics(&self, res: Response, format: &str) -> (r: Handled)
        requires
            self.wf(),
            response::is_own(res@),
        ensures
            exports_all(r, res@, self.state@, format@),
    {
        match self.state.export_all_traffics(format) {
            Ok(job) => Handled::Render(res, job),
            Err(error) => {
                let mut res: Response = res;
                fail(&mut res, error);
                Handled::Respond(res)
            },
        }
    }

    fn handle_get_traffic(&self, res: Response, id: &str, format: &str) -> (r: Handled)
        requires
            self.wf(),
            response::is_own(res@),
        ensures
            exports_one(r, res@, self.state@, id@, format@),
    {
        let mut res: Response = res;
        let id: usize = match text::parse_unsigned(id, usize::MAX as u64) {
            Some(n) => n as usize,
            None => {
                res.status = response::BAD_REQUEST;
                res.set_res_body("Invalid id".to_owned());
                return Handled::Respond(res);
            },
        };
        match self.state.export_traffic(id) {
            Ok(traffic) => Handled::RenderOne(res, traffic, format.to_owned()),
            Err(error) => {
                fail(&mut res, error);
                Handled::Respond(res)
            },
        }
    }

    /// Does with a request what its URI and its method ask for.
    pub fn handle(&self, req_uri: &str, method: &str) -> (r: Handled)
        requires
            self.wf(),
        ensures
            self.handles(r, goal_of(req_uri@, method@, self.base(), self.web)),
    {
        let route: Route = self.route(req_uri, method);
        let mut res: Response = Response::bare(response::OK);
        match route {
            Route::Nowhere => {
                return Handled::Respond(
                    Response::with_text(response::INTERNAL_SERVER_ERROR, "No reserver proxy url"),
                );
            },
            Route::Certificate(path) => {
                self.handle_cert_index(&mut res, path.as_str());
                return Handled::Respond(res);
            },
            Route::WebDisabled => {
                return Handled::Respond(
                    Response::with_text(
                        response::BAD_REQUEST,
                        "The web interface is disabled. To enable it, run the command with the `--web` flag.",
                    ),
                );
            },
            Route::WebMethod => {
                return Handled::Respond(Response::bare(response::METHOD_NOT_ALLOWED));
            },
            Route::Forward(uri) => {
                return Handled::Forward(uri);
            },
            _ => {},
        }
        res.set_cors_header();
        match route {
            Route::WebIndex => {
                self.handle_web_index(&mut res);
                Handled::Respond(res)
            },
            Route::Traffics => {
                self.handle_subscribe_traffics(&mut res);
                Handled::Respond(res)
            },
            Route::Websocket(id) => {
                self.handle_subscribe_websocket(&mut res, id.as_str());
                Handled::Respond(res)
            },
            Route::Export(format) => self.handle_list_traffics(res, format.as_str()),
            Route::ExportOne(id, format) => self.handle_get_traffic(
                res,
                id.as_str(),
                format.as_str(),
            ),
            Route::WebCertificate(path) => {
                self.handle_cert_index(&mut res, path.as_str());
                Handled::Respond(res)
            },
            _ => {
                res.status = response::NOT_FOUND;
                Handled::Respond(res)
            },
        }
    }
}

/// Turns an answer into one that tells of an error.
fn fail(res: &mut Response, error: String)
    requires
        old(res)@.fields.dom().len() <= headers::NAMES_MAX,
    ensures
        final(res)@ == error_reply(old(res)@, error@),
{
    res.status = response::INTERNAL_SERVER_ERROR;
    res.set_res_body(error);
}

/// Makes an answer once exchanges have been rendered.
pub fn finish_export(res: Response, output: Result<(String, &str), String>) -> (r: Response)
    requires
        response::is_own(res@),
    ensures
        r@ == rendered_reply(
            res@,
            match output {
                Ok((data, media)) => Ok((data@, media@)),
                Err(error) => Err(error@),
            },
        ),
{
    let ghost before = res@;
    let mut res: Response = res;
    match output {
        Ok((data, media)) => {
            res.set_res_body(data);
            match headers::read_value(media) {
                Some(_) => {
                    res.set_fresh(media);
                },
                None => {
                    fail(&mut res, "failed to parse header value".to_owned());
                    proof {
                        assert(res@ =~= error_reply(before, "failed to parse header value"@));
                    }
                },
            }
        },
        Err(error) => {
            fail(&mut res, error);
        },
    }
    res
}

proof fn lemma_path_in_front(uri: Seq<char>, prefix: Seq<char>)
    requires
        !prefix.contains('?'),
    ensures
        prefix.is_prefix_of(text::before_first(uri, '?')) <==> prefix.is_prefix_of(uri),
{
    let path = text::before_first(uri, '?');
    text::law_first_separator_parts(uri, '?', path, text::after_first(uri, '?'));
    if uri.contains('?') {
        assert(uri == path + seq!['?'] + text::after_first(uri, '?'));
        if prefix.is_prefix_of(uri) {
            if prefix.len() > path.len() {
                assert(uri[path.len() as int] == '?');
                assert(prefix[path.len() as int] == '?');
            }
            assert(prefix =~= path.subrange(0, prefix.len() as int));
        }
        if prefix.is_prefix_of(path) {
            assert(prefix =~= uri.subrange(0, prefix.len() as int));
        }
    }
}

proof fn lemma_own_addresses()
    ensures
        "/"@ == seq!['/'],
        "http://proxymore.local/"@.len() == 23,
        "http://proxymore.local/"@[0] == 'h',
        !"http://proxymore.local/"@.contains('?'),
        "/__proxymore__"@.len() == 14,
        "/__proxymore__"@[0] == '/',
        !"/__proxymore__"@.contains('?'),
{
    reveal_strlit("/");
    reveal_strlit("http://proxymore.local/");
    reveal_strlit("/__proxymore__");
    assert("/"@ =~= seq!['/']);
}

proof fn lemma_goal(req_uri: Seq<char>, method: Seq<char>, base: Option<Seq<char>>, web: bool)
    ensures
        ({
            let below = req_uri.len() > 0 && req_uri[0] == '/';
            let asks_web = "/__proxymore__"@.is_prefix_of(req_uri);
            let meant = if below && !asks_web && base is Some {
                base->0 + req_uri
            } else {
                req_uri
            };
            let goal = goal_of(req_uri, method, base, web);
            let path = text::before_first(meant, '?');
            if below && !asks_web && base is None {
                goal == Goal::Nowhere
            } else if "http://proxymore.local/"@.is_prefix_of(meant) {
                goal == Goal::Certificate(path.skip(23)) && path.len() >= 23
            } else if "/__proxymore__"@.is_prefix_of(meant) {
                &&& !web ==> goal == Goal::WebDisabled
                &&& web && method != "GET"@ ==> goal == Goal::WebMethod
                &&& web && method == "GET"@ ==> goal == web_goal(
                    path.skip(14),
                    text::after_first(req_uri, '?'),
                )
            } else {
                goal == Goal::Forward(meant)
            }
        }),
{
    lemma_own_addresses();
    let slash = "/"@;
    text::law_prefixes_are_letters_in_front(req_uri, slash, Seq::empty());
    text::law_prefixes_are_letters_in_front(req_uri, "/__proxymore__"@, Seq::empty());
    if req_uri.len() > 0 && req_uri[0] == '/' {
        assert(slash =~= req_uri.subrange(0, 1));
    }
    if slash.is_prefix_of(req_uri) {
        assert(req_uri.subrange(0, 1)[0] == '/');
    }
    if "/__proxymore__"@.is_prefix_of(req_uri) {
        assert(req_uri.subrange(0, 14)[0] == '/');
    }
    match meant_uri(req_uri, base) {
        Some(uri) => {
            let path = text::before_first(uri, '?');
            lemma_path_in_front(uri, "http://proxymore.local/"@);
            lemma_path_in_front(uri, "/__proxymore__"@);
            text::law_prefixes_are_letters_in_front(
                path,
                "http://proxymore.local/"@,
                Seq::empty(),
            );
            text::law_prefixes_are_letters_in_front(path, "/__proxymore__"@, Seq::empty());
        },
        None => {},
    }
}

/// Every request that names a host is forwarded, to the URI that it names, unless it asks for the
/// certificate under the proxy's own address. Neither its scheme nor its method, nor how the proxy
/// is set up, has a part in it.
pub proof fn law_named_hosts_are_forwarded_to(
    req_uri: Seq<char>,
    method: Seq<char>,
    base: Option<Seq<char>>,
    web: bool,
)
    requires
        req_uri.len() == 0 || req_uri[0] != '/',
        !"http://proxymore.local/"@.is_prefix_of(req_uri),
    ensures
        goal_of(req_uri, method, base, web) == Goal::Forward(req_uri),
{
    lemma_own_addresses();
    lemma_goal(req_uri, method, base, web);
    if "/__proxymore__"@.is_prefix_of(req_uri) {
        assert(req_uri.subrange(0, 14)[0] == '/');
    }
}

/// A request goes nowhere exactly where it names no host, does not ask for the web interface, and
/// there is no URL to forward to.
pub proof fn law_nowhere_is_the_last_resort(
    req_uri: Seq<char>,
    method: Seq<char>,
    base: Option<Seq<char>>,
    web: bool,
)
    ensures
        goal_of(req_uri, method, base, web) == Goal::Nowhere <==> req_uri.len() > 0 && req_uri[0]
            == '/' && !"/__proxymore__"@.is_prefix_of(req_uri) && base is None,
{
    lemma_goal(req_uri, method, base, web);
}

/// Every request without a host goes below the URL to forward to, with all that it holds, whatever
/// its method is.
pub proof fn law_paths_go_below_the_url(
    req_uri: Seq<char>,
    method: Seq<char>,
    base: Seq<char>,
    web: bool,
)
    requires
        req_uri.len() > 0,
        req_uri[0] == '/',
        !"/__proxymore__"@.is_prefix_of(req_uri),
        base.len() > 0,
        base[0] != '/',
        !"http://proxymore.local/"@.is_prefix_of(base + req_uri),
    ensures
        goal_of(req_uri, method, Some(base), web) == Goal::Forward(base + req_uri),
{
    lemma_own_addresses();
    lemma_goal(req_uri, method, Some(base), web);
    if "/__proxymore__"@.is_prefix_of(base + req_uri) {
        assert((base + req_uri).subrange(0, 14)[0] == '/');
    }
}

/// Under the proxy's own address stand the certificate pages: the path behind it, up to a question
/// mark, tells which.
pub proof fn law_own_address_has_the_certificate(
    path: Seq<char>,
    query: Seq<char>,
    method: Seq<char>,
    base: Option<Seq<char>>,
    web: bool,
)
    requires
        !path.contains('?'),
    ensures
        goal_of("http://proxymore.local/"@ + path, method, base, web) == Goal::Certificate(path),
        goal_of("http://proxymore.local/"@ + path + seq!['?'] + query, method, base, web)
            == Goal::Certificate(path),
{
    lemma_own_addresses();
    let own = "http://proxymore.local/"@;
    let plain = own + path;
    let asking = plain + seq!['?'] + query;
    lemma_goal(plain, method, base, web);
    lemma_goal(asking, method, base, web);
    assert(own =~= plain.subrange(0, 23));
    assert(own =~= asking.subrange(0, 23));
    assert(plain[0] == 'h' && asking[0] == 'h');
    lemma_no_question(own, path);
    text::law_first_separator_parts(plain, '?', plain, query);
    assert(plain.skip(23) =~= path);
}

proof fn lemma_no_question(a: Seq<char>, b: Seq<char>)
    requires
        !a.contains('?'),
        !b.contains('?'),
    ensures
        !(a + b).contains('?'),
{
    let s = a + b;
    assert forall|i: int| 0 <= i < s.len() implies #[trigger] s[i] != '?' by {
        if i < a.len() {
            assert(a.contains(a[i]));
        } else {
            assert(b.contains(b[i - a.len()]));
        }
    }
}

/// The web interface is answered to only where it is switched on, and only to `GET`: so it is at
/// every path below its own.
pub proof fn law_web_is_guarded(
    rest: Seq<char>,
    method: Seq<char>,
    base: Option<Seq<char>>,
)
    ensures
        goal_of("/__proxymore__"@ + rest, method, base, false) == Goal::WebDisabled,
        method != "GET"@ ==> goal_of("/__proxymore__"@ + rest, method, base, true)
            == Goal::WebMethod,
{
    lemma_own_addresses();
    let uri = "/__proxymore__"@ + rest;
    lemma_goal(uri, method, base, false);
    lemma_goal(uri, method, base, true);
    assert("/__proxymore__"@ =~= uri.subrange(0, 14));
    assert(uri[0] == '/');
    if "http://proxymore.local/"@.is_prefix_of(uri) {
        assert(uri.subrange(0, 23)[0] == 'h');
    }
}

proof fn lemma_web_goal(path: Seq<char>, query: Seq<char>, base: Option<Seq<char>>)
    requires
        !path.contains('?'),
    ensures
        goal_of("/__proxymore__"@ + path, "GET"@, base, true) == web_goal(path, Seq::empty()),
        goal_of("/__proxymore__"@ + path + seq!['?'] + query, "GET"@, base, true) == web_goal(
            path,
            query,
        ),
{
    lemma_own_addresses();
    let own = "/__proxymore__"@;
    let plain = own + path;
    let asking = plain + seq!['?'] + query;
    lemma_goal(plain, "GET"@, base, true);
    lemma_goal(asking, "GET"@, base, true);
    assert(own =~= plain.subrange(0, 14));
    assert(own =~= asking.subrange(0, 14));
    assert(plain[0] == '/' && asking[0] == '/');
    if "http://proxymore.local/"@.is_prefix_of(plain) {
        assert(plain.subrange(0, 23)[0] == 'h');
    }
    if "http://proxymore.local/"@.is_prefix_of(asking) {
        assert(asking.subrange(0, 23)[0] == 'h');
    }
    lemma_no_question(own, path);
    text::law_first_separator_parts(plain, '?', plain, query);
    assert(text::after_first(plain, '?') =~= Seq::empty());
    assert(plain.skip(14) =~= path);
}

proof fn lemma_web_paths()
    ensures
        ""@ == Seq::<char>::empty(),
        "/"@ == seq!['/'],
        "/subscribe/traffics"@.len() == 19,
        "/subscribe/traffics"@[1] == 's',
        "/subscribe/traffics"@[11] == 't',
        "/subscribe/websocket/"@.len() == 21,
        "/subscribe/websocket/"@[1] == 's',
        "/subscribe/websocket/"@[11] == 'w',
        "/traffics"@.len() == 9,
        "/traffics"@[1] == 't',
        "/traffics"@[8] == 's',
        "/traffic/"@.len() == 9,
        "/traffic/"@[1] == 't',
        "/traffic/"@[8] == '/',
        "/certificate/"@.len() == 13,
        "/certificate/"@[1] == 'c',
{
    reveal_strlit("");
    reveal_strlit("/");
    reveal_strlit("/subscribe/traffics");
    reveal_strlit("/subscribe/websocket/");
    reveal_strlit("/traffics");
    reveal_strlit("/traffic/");
    reveal_strlit("/certificate/");
    assert(""@ =~= Seq::<char>::empty());
    assert("/"@ =~= seq!['/']);
}

/// The web interface has its pages where it says: its index, the feed of summaries, the feed of a
/// WebSocket under its number, all exchanges and one exchange in the format that the query names,
/// and the certificate pages. At every other path it has none.
pub proof fn law_web_pages_have_their_paths(
    path: Seq<char>,
    rest: Seq<char>,
    query: Seq<char>,
    base: Option<Seq<char>>,
)
    requires
        !path.contains('?'),
    ensures
        ({
            let goal = goal_of("/__proxymore__"@ + path, "GET"@, base, true);
            let asked = goal_of("/__proxymore__"@ + path + seq!['?'] + query, "GET"@, base, true);
            &&& path.len() == 0 || path == seq!['/'] ==> goal == Goal::WebIndex && asked
                == Goal::WebIndex
            &&& path == "/subscribe/traffics"@ ==> goal == Goal::Traffics && asked == Goal::Traffics
            &&& path == "/traffics"@ ==> goal == Goal::Export(Seq::empty()) && asked
                == Goal::Export(query)
            &&& path == "/subscribe/websocket/"@ + rest ==> goal == Goal::Websocket(rest) && asked
                == Goal::Websocket(rest)
            &&& path == "/traffic/"@ + rest ==> goal == Goal::ExportOne(rest, Seq::empty()) && asked
                == Goal::ExportOne(rest, query)
            &&& path == "/certificate/"@ + rest ==> goal == Goal::WebCertificate(rest) && asked
                == Goal::WebCertificate(rest)
            &&& path.len() > 0 && path != seq!['/'] && path != "/subscribe/traffics"@ && path
                != "/traffics"@ && !"/subscribe/websocket/"@.is_prefix_of(path)
                && !"/traffic/"@.is_prefix_of(path) && !"/certificate/"@.is_prefix_of(path) ==> goal
                == Goal::WebUnknown && asked == Goal::WebUnknown
        }),
{
    lemma_web_goal(path, query, base);
    lemma_web_paths();
    let socket = "/subscribe/websocket/"@;
    let one = "/traffic/"@;
    let certificate = "/certificate/"@;
    text::law_prefixes_are_letters_in_front(path, socket, rest);
    text::law_prefixes_are_letters_in_front(path, one, rest);
    text::law_prefixes_are_letters_in_front(path, certificate, rest);
    if text::begins_with(path, socket) {
        assert(path[1] == path.take(21)[1] && path[11] == path.take(21)[11]);
    }
    if text::begins_with(path, one) {
        assert(path[1] == path.take(9)[1] && path[8] == path.take(9)[8]);
    }
    if text::begins_with(path, certificate) {
        assert(path[1] == path.take(13)[1]);
    }
    if path == socket + rest {
        assert(path.skip(21) =~= rest);
    }
    if path == one + rest {
        assert(path.skip(9) =~= rest);
    }
    if path == certificate + rest {
        assert(path.skip(13) =~= rest);
    }
    if path.len() == 0 {
        assert(path =~= Seq::<char>::empty());
    }
}

/// What the server answers to a request that it forwards nowhere, and what it answers where the web
/// interface is not to be had: the status and the words for it.
pub proof fn law_refusals_say_why<W>(server: Server<W>, handled: Handled, goal: Goal)
    requires
        server.handles(handled, goal),
    ensures
        goal is Forward <==> handled is Forward,
        goal matches Goal::Forward(uri) ==> (handled matches Handled::Forward(to) && to@ == uri),
        goal is Nowhere ==> (handled matches Handled::Respond(res) && res@.status == 500
            && res@.content == Content::Text("No reserver proxy url"@)),
        goal is WebDisabled ==> (handled matches Handled::Respond(res) && res@.status == 400
            && res@.content == Content::Text(
            "The web interface is disabled. To enable it, run the command with the `--web` flag."@,
        )),
        goal is WebMethod ==> (handled matches Handled::Respond(res) && res@.status == 405
            && res@.content == Content::Empty),
        goal is WebUnknown ==> (handled matches Handled::Respond(res) && res@.status == 404
            && res@.content == Content::Empty),
{
}

/// The index of the web interface is its page, and the feed of summaries begins with those of all
/// exchanges that are recorded; both say what they are and are not to be cached.
pub proof fn law_web_pages_are_answered<W>(server: Server<W>, handled: Handled, goal: Goal)
    requires
        server.handles(handled, goal),
    ensures
        goal is WebIndex ==> (handled matches Handled::Respond(res) && res@.status == 200
            && res@.content == Content::Text(server.pages.web_index@) && headers::values_at(
            res@.fields,
            "content-type"@,
        ) == seq![encode_utf8("text/html; charset=UTF-8"@)] && headers::values_at(
            res@.fields,
            "cache-control"@,
        ) == seq![encode_utf8("no-cache"@)]),
        goal is Traffics ==> (handled matches Handled::Respond(res) && res@.status == 200
            && res@.content == Content::Heads(state::all_heads(server.state@.records))
            && headers::values_at(res@.fields, "content-type"@) == seq![
            encode_utf8("application/x-ndjson; charset=UTF-8"@),
        ] && headers::values_at(res@.fields, "cache-control"@) == seq![encode_utf8("no-cache"@)]),
{
    let web = Reply::bare(response::OK).cors();
    response::law_fresh_responses_say_so(web.text(server.pages.web_index@), html(), ""@);
    response::law_fresh_responses_say_so(
        web.content(Content::Heads(state::all_heads(server.state@.records))),
        ndjson(),
        ""@,
    );
}

/// The feed of a WebSocket begins with all that is recorded of it, under its number; a number that
/// no WebSocket has is not found, and what is no number is a bad request.
pub proof fn law_socket_feeds_are_answered<W>(reply: Reply, store: Store<W>, id: Seq<char>, n: nat)
    ensures
        text::bounded_value(id, usize::MAX as nat) == Some(n) && 1 <= n <= store.sockets.len() ==> {
            let answer = websocket_reply(reply, store, id);
            &&& answer.status == reply.status
            &&& answer.content == Content::Messages(n as usize, store.sockets[n - 1])
            &&& headers::values_at(answer.fields, "content-type"@) == seq![
                encode_utf8("application/x-ndjson; charset=UTF-8"@),
            ]
            &&& headers::values_at(answer.fields, "cache-control"@) == seq![
                encode_utf8("no-cache"@),
            ]
        },
        text::bounded_value(id, usize::MAX as nat) == Some(n) && !(1 <= n <= store.sockets.len())
            ==> {
            let answer = websocket_reply(reply, store, id);
            answer.status == 404 && answer.content == Content::Text("Not found websocket"@)
        },
        text::bounded_value(id, usize::MAX as nat) is None ==> {
            let answer = websocket_reply(reply, store, id);
            answer.status == 400 && answer.content == Content::Text("Invalid id"@)
        },
{
    response::law_fresh_responses_say_so(
        reply.content(Content::Messages(n as usize, store.sockets[n - 1])),
        ndjson(),
        ""@,
    );
}

/// The certificate pages are the page itself and the certificate, as a file under either of its two
/// names; nothing else is found there.
pub proof fn law_certificates_are_handed_out(
    reply: Reply,
    path: Seq<char>,
    page: Seq<char>,
    pem: Seq<char>,
)
    ensures
        ({
            let answer = certificate_reply(reply, path, page, pem);
            let is_file = path == "proxymore-ca-cert.cer"@ || path == "proxymore-ca-cert.pem"@;
            &&& path.len() == 0 ==> answer.status == reply.status && answer.content
                == Content::Text(page) && headers::values_at(answer.fields, "content-type"@)
                == seq![encode_utf8("text/html; charset=UTF-8"@)]
            &&& is_file ==> answer.status == reply.status && answer.content == Content::Text(pem)
                && headers::values_at(answer.fields, "content-type"@) == seq![
                encode_utf8("application/x-x509-ca-cert"@),
            ] && headers::values_at(answer.fields, "content-disposition"@) == seq![
                encode_utf8("attachment; filename=\""@ + path + "\""@),
            ]
            &&& path.len() > 0 && !is_file ==> answer.status == 404 && answer.content
                == reply.content && answer.fields == reply.fields
        }),
{
    reveal_strlit("");
    reveal_strlit("proxymore-ca-cert.cer");
    reveal_strlit("proxymore-ca-cert.pem");
    reveal_strlit("content-type");
    reveal_strlit("content-disposition");
    assert("content-type"@.len() == 12);
    assert("content-disposition"@.len() == 19);
    if path.len() == 0 {
        assert(path =~= ""@);
    }
}

/// Both certificate pages are those of the server: under its own address and from within the web
/// interface.
pub proof fn law_certificate_pages_are_answered<W>(server: Server<W>, handled: Handled, goal: Goal)
    requires
        server.handles(handled, goal),
    ensures
        goal matches Goal::Certificate(path) ==> (handled matches Handled::Respond(res) && res@
            == certificate_reply(
            Reply::bare(200),
            path,
            server.pages.cert_index@,
            server.ca.cert_pem@,
        )),
        goal matches Goal::WebCertificate(path) ==> (handled matches Handled::Respond(res) && res@
            == certificate_reply(
            Reply::bare(200).cors(),
            path,
            server.pages.cert_index@,
            server.ca.cert_pem@,
        )),
        goal matches Goal::Websocket(id) ==> (handled matches Handled::Respond(res) && res@
            == websocket_reply(Reply::bare(200).cors(), server.state@, id)),
{
}

/// All exchanges are handed out in the format that is asked for, each of them and in order; a word
/// that names no format is answered with an error that tells it.
pub proof fn law_all_exchanges_are_handed_out<W>(
    server: Server<W>,
    handled: Handled,
    format: Seq<char>,
)
    requires
        server.handles(handled, Goal::Export(format)),
    ensures
        match handled {
            Handled::Render(res, job) => {
                &&& res@.status == 200
                &&& format == "markdown"@ || format == "har"@ || format == "curl"@ || format
                    == "json"@ || format.len() == 0
                &&& job is Heads <==> format.len() == 0
                &&& job matches ExportJob::Traffics(f, list) ==> {
                    &&& (f == ExportFormat::Markdown) == (format == "markdown"@)
                    &&& (f == ExportFormat::Har) == (format == "har"@)
                    &&& (f == ExportFormat::Curl) == (format == "curl"@)
                    &&& (f == ExportFormat::Json) == (format == "json"@)
                    &&& list@.len() == server.state@.records.len()
                    &&& forall|i: int|
                        0 <= i < list@.len() ==> (#[trigger] list@[i])@ == server.state@.records[i]
                }
                &&& job matches ExportJob::Heads(heads) ==> state::head_views(heads@)
                    == state::all_heads(server.state@.records)
            },
            Handled::Respond(res) => {
                &&& res@.status == 500
                &&& res@.content == Content::Text("Unsupported format: "@ + format)
                &&& format != "markdown"@ && format != "har"@ && format != "curl"@ && format
                    != "json"@ && format.len() > 0
            },
            _ => false,
        },
{
    reveal_strlit("");
    reveal_strlit("markdown");
    reveal_strlit("har");
    reveal_strlit("curl");
    reveal_strlit("json");
    assert("markdown"@.len() == 8);
    assert("har"@.len() == 3);
    assert("curl"@.len() == 4 && "curl"@[0] == 'c');
    assert("json"@.len() == 4 && "json"@[0] == 'j');
    if format.len() == 0 {
        assert(format =~= ""@);
    }
    match handled {
        Handled::Render(_, ExportJob::Traffics(_, list)) => {
            assert forall|i: int| 0 <= i < list@.len() implies (#[trigger] list@[i])@
                == server.state@.records[i] by {
                assert(state::record_views(list@)[i] == list@[i]@);
            }
            assert(state::record_views(list@).len() == list@.len());
        },
        _ => {},
    }
}

/// One exchange is handed out under its number, in the format that is asked for; a number that no
/// exchange has is answered with an error that tells it, and what is no number is a bad request.
pub proof fn law_one_exchange_is_handed_out<W>(
    server: Server<W>,
    handled: Handled,
    id: Seq<char>,
    format: Seq<char>,
    n: nat,
)
    requires
        server.handles(handled, Goal::ExportOne(id, format)),
    ensures
        text::bounded_value(id, usize::MAX as nat) == Some(n) && 1 <= n
            <= server.state@.records.len() ==> (
        handled matches Handled::RenderOne(res, t, f) && res@.status == 200 && t@
            == server.state@.records[n - 1] && f@ == format),
        text::bounded_value(id, usize::MAX as nat) == Some(n) && !(1 <= n
            <= server.state@.records.len()) ==> (
        handled matches Handled::Respond(res) && res@.status == 500 && res@.content == Content::Text(
            "Not found traffic "@ + text::decimal(n),
        )),
        text::bounded_value(id, usize::MAX as nat) is None ==> (
        handled matches Handled::Respond(res) && res@.status == 400 && res@.content == Content::Text(
            "Invalid id"@,
        )),
{
}

/// A rendering is answered under the status that the answer has, with its media type, and is not to
/// be cached; an error is answered as one, with its words.
pub proof fn law_renderings_are_answered_as_they_are(
    reply: Reply,
    data: Seq<char>,
    media: Seq<char>,
    error: Seq<char>,
)
    ensures
        headers::is_value(encode_utf8(media)) ==> {
            let answer = rendered_reply(reply, Ok((data, media)));
            &&& answer.status == reply.status
            &&& answer.content == Content::Text(data)
            &&& headers::values_at(answer.fields, "content-type"@) == seq![encode_utf8(media)]
            &&& headers::values_at(answer.fields, "cache-control"@) == seq![
                encode_utf8("no-cache"@),
            ]
        },
        !headers::is_value(encode_utf8(media)) ==> rendered_reply(reply, Ok((data, media))).status
            == 500,
        rendered_reply(reply, Err(error)).status == 500,
        rendered_reply(reply, Err(error)).content == Content::Text(error),
{
    response::law_fresh_responses_say_so(reply.text(data), media, ""@);
}

/// A server that nobody has set up further forwards what names a host, verifies certificates,
/// offers no web interface, has no filters and passes for Firefox; it begins with nothing recorded,
/// and writes to the console in Markdown.
pub proof fn law_servers_begin_plain<W>(
    server: Server<W>,
    builder: ServerBuilder,
    ca: CertificateAuthority,
    pages: Pages,
)
    requires
        is_fresh(builder, ca, pages),
        is_built(server, builder),
    ensures
        server.reverse_proxy_url is None,
        server.cert_verification,
        !server.web,
        server.title_filters@.len() == 0,
        server.mime_filters@.len() == 0,
        server.emulation == Emulation::Firefox147,
        server.ca == ca,
        server.pages == pages,
        server.state@.records.len() == 0,
        server.state@.rules.len() == 0,
        server.state@.sockets.len() == 0,
        server.state@.print_mode == PrintMode::Markdown,
{
}

/// A server has the settings that it was built with.
pub proof fn law_servers_have_their_settings<W>(server: Server<W>, builder: ServerBuilder)
    requires
        is_built(server, builder),
    ensures
        server.reverse_proxy_url == builder.reverse_proxy_url,
        server.emulation == builder.emulation,
        server.cert_verification == builder.cert_verification,
        server.title_filters == builder.title_filters,
        server.mime_filters == builder.mime_filters,
        server.web == builder.web,
        server.ca == builder.ca,
        server.pages == builder.pages,
        server.state@.print_mode == builder.print_mode,
        server.state@.records.len() == 0,
        server.base() is Some <==> builder.reverse_proxy_url is Some,
        builder.reverse_proxy_url matches Some(url) ==> server.base() == Some(url@),
{
}

} // verus!
