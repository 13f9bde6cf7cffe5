//! The daemon's HTTP protocol: which requests an invocation sends, and how
//! their responses are judged. Sending them is left to the caller.

use vstd::prelude::*;
use crate::settings::Settings;

verus! {

pub const LOGIN_PATH: &'static str = "/api/v2/auth/login";

pub const ADD_PATH: &'static str = "/api/v2/torrents/add";

pub const INFO_PATH: &'static str = "/api/v2/torrents/info?filter=all";

/// Body that the daemon answers a successful login with.
pub const LOGIN_OK: &'static str = "Ok.";

/// File name sent when the path has none.
pub const FALLBACK_FILE_NAME: &'static str = "upload.torrent";

pub const MAGNET_SCHEME: &'static str = "magnet:";

#[derive(PartialEq, Eq, Structural, Clone, Copy, Debug)]
pub enum Method {
    Get,
    Post,
}

/// What a request carries.
pub enum RequestBody {
    Empty,
    /// Form-encoded name/value pairs.
    Form(Vec<(String, String)>),
    /// A multipart form: the bytes of a local file as one part, plus text parts.
    Multipart { file_field: String, file_path: String, file_name: String, text: Vec<(String, String)> },
}

pub struct HttpRequest {
    pub method: Method,
    pub url: String,
    pub body: RequestBody,
}

/// What one invocation asks of the daemon.
#[derive(Debug)]
pub enum RequestIntent {
    AddMagnet { uri: String, save_path: String },
    AddFile { path: String, save_path: String },
    List { all: bool },
}

/// How an add is carried out.
pub enum AddPlan {
    /// Dry run: print these lines, send nothing, succeed.
    DryRun(Vec<String>),
    /// Log in if credentials are present, then send this request.
    Send(HttpRequest),
}

/// Failures judged from a daemon response.
#[derive(Debug)]
pub enum ClientError {
    /// Login was attempted and the body was not the success literal.
    Auth { body: String },
    /// The daemon answered with a status outside the success range.
    Rejected { status: u16, body: String },
}

/// The pairs of a form, as views.
pub open spec fn pairs_view(v: Seq<(String, String)>) -> Seq<(Seq<char>, Seq<char>)> {
    v.map_values(|p: (String, String)| (p.0@, p.1@))
}

/// Whether `s` begins with `p`.
pub open spec fn has_prefix(s: Seq<char>, p: Seq<char>) -> bool {
    s.len() >= p.len() && s.subrange(0, p.len() as int) == p
}

/// Whether login is attempted: only when both credentials are present.
pub open spec fn has_credentials(settings: &Settings) -> bool {
    settings.username is Some && settings.password is Some
}

/// Whether a status code is in the success range.
pub open spec fn is_success(status: u16) -> bool {
    200 <= status <= 299
}

/// The file name component of a path, when it has one.
pub uninterp spec fn file_name_of(path: Seq<char>) -> Option<Seq<char>>;

/// The name under which a file is uploaded.
pub open spec fn upload_name(path: Seq<char>) -> Seq<char> {
    match file_name_of(path) {
        Some(n) => n,
        None => FALLBACK_FILE_NAME@,
    }
}

/// The lines printed for a dry-run add.
pub open spec fn dry_run_text(intent: &RequestIntent, host: Seq<char>) -> Seq<Seq<char>> {
    match intent {
        RequestIntent::AddMagnet { uri, save_path } => seq![
            "[dry-run] POST "@ + host + ADD_PATH@,
            "[dry-run] form params: urls="@ + uri@ + ", savepath="@ + save_path@,
        ],
        RequestIntent::AddFile { path, save_path } => seq![
            "[dry-run] POST "@ + host + ADD_PATH@,
            "[dry-run] file: "@ + path@,
            "[dry-run] savepath: "@ + save_path@,
        ],
        RequestIntent::List { .. } => seq![],
    }
}

/// The login request: a form POST of both credentials.
pub open spec fn login_request_ok(settings: &Settings, q: &HttpRequest) -> bool {
    &&& q.method == Method::Post
    &&& q.url@ == settings.host@ + LOGIN_PATH@
    &&& q.body matches RequestBody::Form(f) && pairs_view(f@) == seq![
        ("username"@, settings.username->0@),
        ("password"@, settings.password->0@),
    ]
}

/// The request that carries out an add.
pub open spec fn add_request_ok(intent: &RequestIntent, host: Seq<char>, r: &HttpRequest) -> bool {
    &&& r.method == Method::Post
    &&& r.url@ == host + ADD_PATH@
    &&& match intent {
        RequestIntent::AddMagnet { uri, save_path } => r.body matches RequestBody::Form(f)
            && pairs_view(f@) == seq![("urls"@, uri@), ("savepath"@, save_path@)],
        RequestIntent::AddFile { path, save_path } => r.body matches RequestBody::Multipart {
            file_field,
            file_path,
            file_name,
            text,
        } && file_field@ == "torrents"@ && file_path@ == path@ && file_name@ == upload_name(path@)
            && pairs_view(text@) == seq![("savepath"@, save_path@)],
        RequestIntent::List { .. } => false,
    }
}

/// Relies on `std::path::Path::file_name` (with `OsStr::to_str`): the final
/// component of the path, if any.
#[verifier::external_body]
fn path_file_name(path: &str) -> (r: Option<String>)
    ensures
        match r {
            Some(n) => file_name_of(path@) == Some(n@),
            None => file_name_of(path@) is None,
        },
{
    std::path::Path::new(path).file_name().and_then(|s| s.to_str()).map(|s| s.to_string())
}

fn pair(name: &str, value: &String) -> (r: (String, String))
    ensures
        r.0@ == name@,
        r.1@ == value@,
{
    (String::from_str(name), value.clone())
}

/// `host` followed by `path`.
pub fn api_url(host: &str, path: &str) -> (r: String)
    ensures
        r@ == host@ + path@,
{
    String::from_str(host).concat(path)
}

/// Whether `s` begins with `p`.
pub fn starts_with(s: &str, p: &str) -> (b: bool)
    ensures
        b == has_prefix(s@, p@),
{
    let n = p.unicode_len();
    if s.unicode_len() < n {
        return false;
    }
    let head = String::from_str(s.substring_char(0, n));
    head == String::from_str(p)
}

/// The add intent for a command-line input: a magnet link when it starts
/// with `magnet:`, a local torrent file otherwise.
pub fn intent_for_input(input: String, save_path: String) -> (r: RequestIntent)
    ensures
        has_prefix(input@, MAGNET_SCHEME@) ==> r == (RequestIntent::AddMagnet { uri: input, save_path }),
        !has_prefix(input@, MAGNET_SCHEME@) ==> r == (RequestIntent::AddFile { path: input, save_path }),
{
    if starts_with(input.as_str(), MAGNET_SCHEME) {
        RequestIntent::AddMagnet { uri: input, save_path }
    } else {
        RequestIntent::AddFile { path: input, save_path }
    }
}

/// The login request, or none when a credential is missing (the daemon is
/// then taken to need no authentication, and nothing is sent).
pub fn login_request(settings: &Settings) -> (r: Option<HttpRequest>)
    ensures
        r is None <==> !has_credentials(settings),
        r matches Some(q) ==> login_request_ok(settings, &q),
{
    match (&settings.username, &settings.password) {
        (Some(user), Some(pass)) => {
            let form = vec![pair("username", user), pair("password", pass)];
            assert(pairs_view(form@) =~= seq![("username"@, user@), ("password"@, pass@)]);
            Some(
                HttpRequest {
                    method: Method::Post,
                    url: api_url(settings.host.as_str(), LOGIN_PATH),
                    body: RequestBody::Form(form),
                },
            )
        },
        _ => None,
    }
}

/// Judges a login response: success exactly when the body is `Ok.`.
pub fn check_login(body: String) -> (r: Result<(), ClientError>)
    ensures
        r == (if body@ == LOGIN_OK@ {
            Ok(())
        } else {
            Err(ClientError::Auth { body })
        }),
{
    if body == String::from_str(LOGIN_OK) {
        Ok(())
    } else {
        Err(ClientError::Auth { body })
    }
}

/// Judges an add response: success exactly when the status is in the
/// success range; otherwise the body is kept for diagnosis.
pub fn check_add(status: u16, body: String) -> (r: Result<(), ClientError>)
    ensures
        r == (if is_success(status) {
            Ok(())
        } else {
            Err(ClientError::Rejected { status, body })
        }),
{
    if 200 <= status && status <= 299 {
        Ok(())
    } else {
        Err(ClientError::Rejected { status, body })
    }
}

/// The name under which the file at `path` is uploaded: its final
/// component, or `upload.torrent` when it has none.
pub fn upload_file_name(path: &str) -> (r: String)
    ensures
        r@ == upload_name(path@),
{
    match path_file_name(path) {
        Some(n) => n,
        None => String::from_str(FALLBACK_FILE_NAME),
    }
}

/// The lines printed for a dry-run add: the target URL, then the form
/// fields (magnet) or the file and save path (file).
pub fn dry_run_lines(intent: &RequestIntent, host: &str) -> (r: Vec<String>)
    ensures
        r@.map_values(|l: String| l@) == dry_run_text(intent, host@),
{
    let url = api_url(host, ADD_PATH);
    let target = String::from_str("[dry-run] POST ").concat(url.as_str());
    assert(target@ =~= "[dry-run] POST "@ + host@ + ADD_PATH@);
    let r = match intent {
        RequestIntent::AddMagnet { uri, save_path } => vec![
            target,
            String::from_str("[dry-run] form params: urls=").concat(uri.as_str()).concat(
                ", savepath=",
            ).concat(save_path.as_str()),
        ],
        RequestIntent::AddFile { path, save_path } => vec![
            target,
            String::from_str("[dry-run] file: ").concat(path.as_str()),
            String::from_str("[dry-run] savepath: ").concat(save_path.as_str()),
        ],
        RequestIntent::List { .. } => Vec::new(),
    };
    assert(r@.map_values(|l: String| l@) =~= dry_run_text(intent, host@)) by {
        if let RequestIntent::AddMagnet { uri, save_path } = intent {
            assert(r@[1]@ =~= "[dry-run] form params: urls="@ + uri@ + ", savepath="@ + save_path@);
        }
    }
    r
}

/// The request that adds a torrent: a form with the magnet link and save
/// path, or a multipart upload of the file with the save path.
pub fn add_request(intent: &RequestIntent, host: &str) -> (r: HttpRequest)
    requires
        !(intent is List),
    ensures
        add_request_ok(intent, host@, &r),
{
    let url = api_url(host, ADD_PATH);
    match intent {
        RequestIntent::AddMagnet { uri, save_path } => {
            let form = vec![pair("urls", uri), pair("savepath", save_path)];
            assert(pairs_view(form@) =~= seq![("urls"@, uri@), ("savepath"@, save_path@)]);
            HttpRequest { method: Method::Post, url, body: RequestBody::Form(form) }
        },
        RequestIntent::AddFile { path, save_path } => {
            let text = vec![pair("savepath", save_path)];
            assert(pairs_view(text@) =~= seq![("savepath"@, save_path@)]);
            HttpRequest {
                method: Method::Post,
                url,
                body: RequestBody::Multipart {
                    file_field: String::from_str("torrents"),
                    file_path: path.clone(),
                    file_name: upload_file_name(path.as_str()),
                    text,
                },
            }
        },
        RequestIntent::List { .. } => HttpRequest { method: Method::Get, url, body: RequestBody::Empty },
    }
}

/// Decides how an add is carried out: in dry-run mode the lines to print
/// and nothing to send (no login either); otherwise the add request.
pub fn plan_add(intent: &RequestIntent, settings: &Settings) -> (r: AddPlan)
    requires
        !(intent is List),
    ensures
        settings.dry_run ==> (r matches AddPlan::DryRun(lines) && lines@.map_values(|l: String| l@)
            == dry_run_text(intent, settings.host@)),
        !settings.dry_run ==> (r matches AddPlan::Send(q) && add_request_ok(intent, settings.host@, &q)),
{
    if settings.dry_run {
        AddPlan::DryRun(dry_run_lines(intent, settings.host.as_str()))
    } else {
        AddPlan::Send(add_request(intent, settings.host.as_str()))
    }
}

/// The request that fetches every torrent's state.
pub fn list_request(settings: &Settings) -> (r: HttpRequest)
    ensures
        r.method == Method::Get,
        r.url@ == settings.host@ + INFO_PATH@,
        r.body is Empty,
{
    HttpRequest { method: Method::Get, url: api_url(settings.host.as_str(), INFO_PATH), body: RequestBody::Empty }
}

/// The two lines that echo a POST exchange in verbose mode.
pub fn verbose_lines(url: &str, status: &str, body: &str) -> (r: Vec<String>)
    ensures
        r@.map_values(|l: String| l@) == seq![
            "[verbose] POST "@ + url@ + " -> "@ + status@,
            "[verbose] response: "@ + body@,
        ],
{
    let r = vec![
        String::from_str("[verbose] POST ").concat(url).concat(" -> ").concat(status),
        String::from_str("[verbose] response: ").concat(body),
    ];
    assert(r@.map_values(|l: String| l@) =~= seq![
        "[verbose] POST "@ + url@ + " -> "@ + status@,
        "[verbose] response: "@ + body@,
    ]);
    r
}

/// The line reported after a successful add.
pub fn added_line(save_path: &str) -> (r: String)
    ensures
        r@ == "Added to qBittorrent (destination: "@ + save_path@ + ")"@,
{
    String::from_str("Added to qBittorrent (destination: ").concat(save_path).concat(")")
}

} // verus!
