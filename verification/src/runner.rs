//! The dump pipeline, as far as it is a matter of decision: which command
//! dumps the database, what the file is called, and what the exits of the
//! processes say of the dump. Running the processes is the caller's part.

use crate::backup::BackupType;
use crate::calendar::{compact_stamp, stamp_text, Timestamp};
use crate::text::{decimal, decimal_text, find, first_occurrence, trim_leading, without_leading};
use vstd::prelude::*;

verus! {

/// The parts of a URL that a connection is made of, as the URL spells them.
#[derive(Debug, PartialEq, Eq)]
pub struct UrlParts {
    pub host: Option<String>,
    pub port: Option<u16>,
    pub username: String,
    pub password: Option<String>,
    pub path: String,
}

/// The text of `UrlParts`.
pub struct UrlPartsText {
    pub host: Option<Seq<char>>,
    pub port: Option<u16>,
    pub username: Seq<char>,
    pub password: Option<Seq<char>>,
    pub path: Seq<char>,
}

impl View for UrlParts {
    type V = UrlPartsText;

    open spec fn view(&self) -> UrlPartsText {
        UrlPartsText {
            host: match self.host {
                Some(h) => Some(h@),
                None => None,
            },
            port: self.port,
            username: self.username@,
            password: match self.password {
                Some(p) => Some(p@),
                None => None,
            },
            path: self.path@,
        }
    }
}

/// The parts that the `url` crate finds in `url`, or nothing where it
/// finds `url` to be no URL.
pub uninterp spec fn url_parts(url: Seq<char>) -> Option<UrlPartsText>;

/// Takes a URL apart.
///
/// Trusted: `url::Url::parse`, and of its result `host_str`, `port`,
/// `username`, `password` and `path`.
#[verifier::external_body]
pub(crate) fn split_url(url: &str) -> (parts: Option<UrlParts>)
    ensures
        parts is Some <==> url_parts(url@) is Some,
        parts matches Some(p) ==> Some(p@) == url_parts(url@),
{
    match url::Url::parse(url) {
        Ok(u) => Some(
            UrlParts {
                host: u.host_str().map(str::to_string),
                port: u.port(),
                username: u.username().to_string(),
                password: u.password().map(str::to_string),
                path: u.path().to_string(),
            },
        ),
        Err(_) => None,
    }
}

/// What the `url` crate writes for `url` once it has put `password` in
/// place of the URL's password, or nothing where it finds `url` to be no URL.
pub uninterp spec fn url_with_password(url: Seq<char>, password: Seq<char>) -> Option<Seq<char>>;

/// Writes `url` with `password` in place of its password.
///
/// Trusted: `url::Url::parse`, `Url::set_password` and the `Display` of
/// the result. Where the URL can take no password it is written as it is.
#[verifier::external_body]
pub(crate) fn replace_password(url: &str, password: &str) -> (replaced: Option<String>)
    ensures
        replaced is Some <==> url_with_password(url@, password@) is Some,
        replaced matches Some(text) ==> Some(text@) == url_with_password(url@, password@),
{
    match url::Url::parse(url) {
        Ok(mut parsed) => {
            let _ = parsed.set_password(Some(password));
            Some(parsed.to_string())
        },
        Err(_) => None,
    }
}

/// What stands in place of a password where a URL is shown.
pub const PASSWORD_MASK: &'static str = "***";

/// `url` with its password starred out by hand, for a text that is no
/// URL: what stands after the first `://` and before the next `@` is taken
/// for name and password, parted by the first `:`. A text without any of
/// the three stays as it is.
pub open spec fn masked_by_hand(url: Seq<char>) -> Seq<char> {
    match first_occurrence(url, "://"@) {
        None => url,
        Some(scheme_end) => {
            let rest = url.skip(scheme_end + 3);
            match first_occurrence(rest, "@"@) {
                None => url,
                Some(at) => match first_occurrence(rest.take(at), ":"@) {
                    None => url,
                    Some(colon) => url.take(scheme_end + 3) + rest.take(colon) + ":"@
                        + PASSWORD_MASK@ + rest.skip(at),
                },
            }
        },
    }
}

/// `url` with its password starred out: a URL without a password stays
/// as it is, one with a password is written anew with stars in its place,
/// and a text that is no URL is starred out by hand.
pub open spec fn masked_url_text(url: Seq<char>) -> Seq<char> {
    match url_parts(url) {
        Some(parts) => if parts.password is Some {
            match url_with_password(url, PASSWORD_MASK@) {
                Some(text) => text,
                None => masked_by_hand(url),
            }
        } else {
            url
        },
        None => masked_by_hand(url),
    }
}

fn mask_by_hand(url: &str) -> (masked: String)
    ensures
        masked@ == masked_by_hand(url@),
{
    proof {
        reveal_strlit("://");
        reveal_strlit("@");
        reveal_strlit(":");
    }
    let length = url.unicode_len();
    let scheme_end = match find(url, "://") {
        Some(i) => i,
        None => {
            return url.to_string();
        },
    };
    let rest = url.substring_char(scheme_end + 3, length);
    assert(rest@ =~= url@.skip(scheme_end + 3));
    let at = match find(rest, "@") {
        Some(i) => i,
        None => {
            return url.to_string();
        },
    };
    let credentials = rest.substring_char(0, at);
    assert(credentials@ =~= rest@.take(at as int));
    let colon = match find(credentials, ":") {
        Some(i) => i,
        None => {
            return url.to_string();
        },
    };
    let head = url.substring_char(0, scheme_end + 3);
    let name = rest.substring_char(0, colon);
    let tail = rest.substring_char(at, length - (scheme_end + 3));
    assert(head@ =~= url@.take(scheme_end + 3));
    assert(name@ =~= rest@.take(colon as int));
    assert(tail@ =~= rest@.skip(at as int));
    head.to_string().concat(name).concat(":").concat(PASSWORD_MASK).concat(tail)
}

/// The database URL as it may be shown: with its password starred out.
pub fn mask_database_password(database_url: &str) -> (masked: String)
    ensures
        masked@ == masked_url_text(database_url@),
{
    match split_url(database_url) {
        Some(parts) => {
            if parts.password.is_some() {
                match replace_password(database_url, PASSWORD_MASK) {
                    Some(text) => text,
                    None => mask_by_hand(database_url),
                }
            } else {
                database_url.to_string()
            }
        },
        None => mask_by_hand(database_url),
    }
}

/// Where and as whom to connect to the database.
#[derive(Debug, PartialEq, Eq)]
pub struct ConnectionParams {
    pub host: String,
    pub port: u16,
    pub username: String,
    pub password: String,
    pub database: String,
}

/// The port of a database that names none.
pub const DEFAULT_PORT: u16 = 5432;

/// Whether `params` is the connection that `parts` stands for: the local
/// host and the default port where none is named, no password where none
/// is given, and the database named by the path without its leading slashes.
pub open spec fn is_connection_of(params: ConnectionParams, parts: UrlPartsText) -> bool {
    &&& params.host@ == match parts.host {
        Some(h) => h,
        None => "localhost"@,
    }
    &&& params.port == match parts.port {
        Some(p) => p,
        None => DEFAULT_PORT,
    }
    &&& params.username@ == parts.username
    &&& params.password@ == match parts.password {
        Some(p) => p,
        None => Seq::<char>::empty(),
    }
    &&& params.database@ == without_leading(parts.path, '/')
}

/// The connection that `parts` stands for.
pub fn connection_params(parts: UrlParts) -> (params: ConnectionParams)
    ensures
        is_connection_of(params, parts@),
{
    let database = trim_leading(parts.path.as_str(), '/');
    ConnectionParams {
        host: match parts.host {
            Some(h) => h,
            None => "localhost".to_string(),
        },
        port: match parts.port {
            Some(p) => p,
            None => DEFAULT_PORT,
        },
        username: parts.username,
        password: match parts.password {
            Some(p) => p,
            None => String::new(),
        },
        database,
    }
}

/// The connection that the URL `database_url` stands for, or nothing where
/// it is no URL.
pub fn parse_connection(database_url: &str) -> (params: Option<ConnectionParams>)
    ensures
        params is Some <==> url_parts(database_url@) is Some,
        params matches Some(p) ==> is_connection_of(p, url_parts(database_url@)->0),
{
    match split_url(database_url) {
        Some(parts) => Some(connection_params(parts)),
        None => None,
    }
}

/// The option that narrows a dump to the given type; a full dump takes none.
pub open spec fn dump_flag(kind: BackupType) -> Seq<Seq<char>> {
    match kind {
        BackupType::Full => Seq::empty(),
        BackupType::Data => seq!["--data-only"@],
        BackupType::Schema => seq!["--schema-only"@],
    }
}

/// The arguments of the dump program: where and as whom to connect, never
/// to ask for a password, to report as it goes, what to dump, and from
/// which database. The password is not among them.
pub open spec fn dump_argument_texts(params: ConnectionParams, kind: BackupType) -> Seq<Seq<char>> {
    seq![
        "--host"@,
        params.host@,
        "--port"@,
        decimal_text(params.port as nat),
        "--username"@,
        params.username@,
        "--no-password"@,
        "--verbose"@,
    ] + dump_flag(kind) + seq![params.database@]
}

/// The texts of a list of strings.
pub open spec fn texts_of(list: Seq<String>) -> Seq<Seq<char>> {
    list.map_values(|s: String| s@)
}

/// The arguments with which to call the dump program.
pub fn dump_arguments(params: &ConnectionParams, kind: BackupType) -> (arguments: Vec<String>)
    ensures
        texts_of(arguments@) == dump_argument_texts(*params, kind),
{
    let mut arguments: Vec<String> = Vec::new();
    arguments.push("--host".to_string());
    arguments.push(params.host.clone());
    arguments.push("--port".to_string());
    arguments.push(decimal(params.port));
    arguments.push("--username".to_string());
    arguments.push(params.username.clone());
    arguments.push("--no-password".to_string());
    arguments.push("--verbose".to_string());
    match kind {
        BackupType::Full => {},
        BackupType::Data => {
            arguments.push("--data-only".to_string());
        },
        BackupType::Schema => {
            arguments.push("--schema-only".to_string());
        },
    }
    arguments.push(params.database.clone());
    assert(texts_of(arguments@) =~= dump_argument_texts(*params, kind));
    arguments
}

/// What a backup's file is called: name, stamp, and an ending that says
/// whether the dump is compressed.
pub open spec fn file_name_text(name: Seq<char>, stamp: Seq<char>, compress: bool) -> Seq<char> {
    name + "_"@ + stamp + if compress {
        ".sql.gz"@
    } else {
        ".sql"@
    }
}

/// The name of the file of a backup called `name`, made at the time that
/// `stamp` stands for.
pub fn backup_file_name(name: &str, stamp: &str, compress: bool) -> (file_name: String)
    ensures
        file_name@ == file_name_text(name@, stamp@, compress),
{
    let ending = if compress {
        ".sql.gz"
    } else {
        ".sql"
    };
    name.to_string().concat("_").concat(stamp).concat(ending)
}

/// Everything the caller needs to run the dump. The password goes to the
/// dump program through its environment, never among its arguments.
#[derive(Debug, PartialEq, Eq)]
pub struct DumpCommand {
    pub arguments: Vec<String>,
    pub password: String,
    /// Whether the dump is piped through the compressing program.
    pub compress: bool,
    /// The name of the file that receives the dump, without its directory.
    pub file_name: String,
}

/// Whether `command` dumps, through the connection that `parts` stands
/// for, a backup of the given name, type and compression at the time `now`.
pub open spec fn is_dump_plan(
    command: DumpCommand,
    parts: UrlPartsText,
    backup_name: Seq<char>,
    kind: BackupType,
    compress: bool,
    now: Timestamp,
) -> bool {
    exists|params: ConnectionParams|
        {
            &&& #[trigger] is_connection_of(params, parts)
            &&& texts_of(command.arguments@) == dump_argument_texts(params, kind)
            &&& command.password == params.password
            &&& command.compress == compress
            &&& command.file_name@ == file_name_text(backup_name, stamp_text(now), compress)
        }
}

/// Plans the dump of a backup called `backup_name` at the time `now`, or
/// nothing where `database_url` is no URL.
pub fn plan_dump(
    backup_name: &str,
    kind: BackupType,
    compress: bool,
    database_url: &str,
    now: &Timestamp,
) -> (command: Option<DumpCommand>)
    requires
        now.wf(),
    ensures
        command is Some <==> url_parts(database_url@) is Some,
        command matches Some(c) ==> is_dump_plan(
            c,
            url_parts(database_url@)->0,
            backup_name@,
            kind,
            compress,
            *now,
        ),
{
    match parse_connection(database_url) {
        Some(params) => {
            let arguments = dump_arguments(&params, kind);
            let stamp = compact_stamp(now);
            let file_name = backup_file_name(backup_name, stamp.as_str(), compress);
            Some(DumpCommand { arguments, password: params.password, compress, file_name })
        },
        None => None,
    }
}

/// How a process ended.
#[derive(Debug, PartialEq, Eq)]
pub struct ProcessReport {
    /// Whether it exited with status zero.
    pub success: bool,
    /// What it wrote to its error stream.
    pub stderr: String,
}

/// What went wrong with a dump, if anything. An uncompressed dump fails
/// where the dump program fails, and says what the program said. A
/// compressed dump fails where either program fails; the dump program's
/// failure is looked at first.
pub open spec fn dump_failure(pg_dump: ProcessReport, gzip: Option<ProcessReport>) -> Option<
    Seq<char>,
> {
    match gzip {
        None => if pg_dump.success {
            None
        } else {
            Some(pg_dump.stderr@)
        },
        Some(g) => if !pg_dump.success {
            Some("pg_dump failed during compression"@)
        } else if !g.success {
            Some("gzip failed: "@ + g.stderr@)
        } else {
            None
        },
    }
}

/// Judges a dump by how its processes ended: `gzip` is the report of the
/// compressing process, or nothing where the dump was not compressed.
pub fn dump_verdict(pg_dump: &ProcessReport, gzip: Option<&ProcessReport>) -> (verdict: Result<
    (),
    String,
>)
    ensures
        verdict is Ok <==> dump_failure(
            *pg_dump,
            match gzip {
                Some(g) => Some(*g),
                None => None,
            },
        ) is None,
        verdict matches Err(message) ==> Some(message@) == dump_failure(
            *pg_dump,
            match gzip {
                Some(g) => Some(*g),
                None => None,
            },
        ),
{
    match gzip {
        None => {
            if pg_dump.success {
                Ok(())
            } else {
                Err(pg_dump.stderr.clone())
            }
        },
        Some(g) => {
            if !pg_dump.success {
                Err("pg_dump failed during compression".to_string())
            } else if !g.success {
                Err("gzip failed: ".to_string().concat(g.stderr.as_str()))
            } else {
                Ok(())
            }
        },
    }
}

} // verus!
