//! What the command line comes to: the interface, the address to listen at, the URL to forward to.
use vstd::prelude::*;
use vstd::string::*;

use crate::text;

verus! {

broadcast use vstd::string::group_string_axioms;

/// How finished traffic is written to the console.
#[derive(Clone, Copy, Debug, PartialEq, Eq, Structural)]
pub enum PrintMode {
    Nothing,
    Oneline,
    Markdown,
}

impl Default for PrintMode {
    fn default() -> (r: Self)
        ensures
            r == PrintMode::Markdown,
    {
        PrintMode::Markdown
    }
}

/// The interfaces that a run offers.
#[derive(Clone, Copy, Debug, PartialEq, Eq, Structural)]
pub struct Interface {
    pub tui: bool,
    pub print_mode: PrintMode,
}

/// Whether the terminal interface comes up: only on a terminal, and there on request or where
/// neither the dump nor the web interface was asked for.
pub open spec fn shows_tui(terminal: bool, tui: bool, dump: bool, web: bool) -> bool {
    terminal && (tui || !(dump || web))
}

/// The interfaces that the flags ask for: what the terminal interface shows is not written to the
/// console, a web interface alone leaves one line of each exchange there, and all else Markdown.
pub open spec fn chosen(terminal: bool, tui: bool, dump: bool, web: bool) -> Interface {
    Interface {
        tui: shows_tui(terminal, tui, dump, web),
        print_mode: if shows_tui(terminal, tui, dump, web) {
            PrintMode::Nothing
        } else if web && !dump {
            PrintMode::Oneline
        } else {
            PrintMode::Markdown
        },
    }
}

/// Chooses the interfaces from the flags and from whether standard output is a terminal.
pub fn choose_interface(terminal: bool, tui: bool, dump: bool, web: bool) -> (r: Interface)
    ensures
        r == chosen(terminal, tui, dump, web),
        r.tui == shows_tui(terminal, tui, dump, web),
        r.print_mode == (if r.tui {
            PrintMode::Nothing
        } else if web && !dump {
            PrintMode::Oneline
        } else {
            PrintMode::Markdown
        }),
{
    let is_tui: bool = terminal && (tui || (!dump && !web));
    let is_dump: bool = dump || (!is_tui && !web);
    let print_mode: PrintMode = if is_tui {
        PrintMode::Nothing
    } else if is_dump {
        PrintMode::Markdown
    } else {
        PrintMode::Oneline
    };
    Interface { tui: is_tui, print_mode }
}

/// The port that is taken where the address names none.
pub const DEFAULT_PORT: u16 = 8080;

/// The part of an address that stands for the host where it has a port behind it.
pub open spec fn host_part(value: Seq<char>) -> Option<Seq<char>> {
    match text::last_split(value, ':') {
        Some((host, _)) => Some(host),
        None => None,
    }
}

/// What an address comes to, as a host and a port: a port alone, an IP address alone, or the two
/// with a colon between them. `value_is_ip` tells whether the whole reads as an IP address,
/// `host_is_ip` whether the host part does.
pub open spec fn listen_address(
    value: Seq<char>,
    value_is_ip: bool,
    host_is_ip: bool,
) -> Option<(Seq<char>, nat)> {
    match text::bounded_value(value, u16::MAX as nat) {
        Some(port) => Some(("0.0.0.0"@, port)),
        None => if value_is_ip {
            Some((value, DEFAULT_PORT as nat))
        } else {
            match text::last_split(value, ':') {
                Some((host, port)) => match text::bounded_value(port, u16::MAX as nat) {
                    Some(port) => if host_is_ip {
                        Some((host, port))
                    } else {
                        None
                    },
                    None => None,
                },
                None => None,
            }
        },
    }
}

/// The part of an address whose reading as an IP address decides over `host_is_ip`.
pub fn addr_host<'a>(value: &'a str) -> (r: Option<&'a str>)
    ensures
        match r {
            Some(host) => host_part(value@) == Some(host@),
            None => host_part(value@) is None,
        },
{
    match text::split_last(value, ':') {
        Some((host, _)) => Some(host),
        None => None,
    }
}

/// Reads a listening address.
pub fn parse_addr(value: &str, value_is_ip: bool, host_is_ip: bool) -> (r: Option<(String, u16)>)
    ensures
        match r {
            Some((host, port)) => listen_address(value@, value_is_ip, host_is_ip) == Some(
                (host@, port as nat),
            ),
            None => listen_address(value@, value_is_ip, host_is_ip) is None,
        },
{
    match text::parse_unsigned(value, u16::MAX as u64) {
        Some(port) => {
            return Some(("0.0.0.0".to_owned(), port as u16));
        },
        None => {},
    }
    if value_is_ip {
        return Some((value.to_owned(), DEFAULT_PORT));
    }
    match text::split_last(value, ':') {
        Some((host, port)) => match text::parse_unsigned(port, u16::MAX as u64) {
            Some(port) => if host_is_ip {
                Some((host.to_owned(), port as u16))
            } else {
                None
            },
            None => None,
        },
        None => None,
    }
}

/// Whether a URL names one of the two schemes.
pub open spec fn has_scheme(url: Seq<char>) -> bool {
    text::begins_with(url, "http://"@) || text::begins_with(url, "https://"@)
}

/// A URL with a scheme: `http://` where it had none.
pub open spec fn with_scheme(url: Seq<char>) -> Seq<char> {
    if has_scheme(url) {
        url
    } else {
        "http://"@ + url
    }
}

/// A text without its last character, where that is a slash.
pub open spec fn without_slash(url: Seq<char>) -> Seq<char> {
    if url.len() > 0 && url.last() == '/' {
        url.drop_last()
    } else {
        url
    }
}

/// The form in which the URL to forward to is kept.
pub open spec fn sanitized(url: Seq<char>) -> Seq<char> {
    without_slash(with_scheme(url))
}

/// Brings the URL to forward to into the form in which it is kept.
pub fn sanitize_reverse_proxy_url(url: String) -> (r: String)
    ensures
        r@ == sanitized(url@),
{
    let url: String = if !text::begins(url.as_str(), "http://") && !text::begins(
        url.as_str(),
        "https://",
    ) {
        text::chain("http://", url.as_str())
    } else {
        url
    };
    let n: usize = url.as_str().unicode_len();
    if n > 0 && url.as_str().get_char(n - 1) == '/' {
        let kept: &str = url.as_str().substring_char(0, n - 1);
        proof {
            assert(kept@ =~= url@.drop_last());
        }
        kept.to_owned()
    } else {
        url
    }
}

/// The kept URL has a scheme, unless nothing stood behind the scheme to begin with.
pub proof fn law_sanitized_url_has_a_scheme(url: Seq<char>)
    requires
        url != Seq::<char>::empty(),
        url != "http://"@,
        url != "https://"@,
    ensures
        has_scheme(sanitized(url)),
{
    reveal_strlit("http://");
    reveal_strlit("https://");
    let full = with_scheme(url);
    assert(("http://"@ + url).take(7) =~= "http://"@);
    if text::begins_with(full, "http://"@) {
        if full.len() == 7 {
            assert(full =~= full.take(7));
            if !has_scheme(url) {
                assert(url =~= Seq::empty());
            }
        }
        assert(full.drop_last().take(7) =~= full.take(7));
    } else {
        if full.len() == 8 {
            assert(full =~= full.take(8));
        }
        assert(full.drop_last().take(8) =~= full.take(8));
    }
}

/// Whether a URL, with its scheme, ends in two slashes.
pub open spec fn ends_in_two_slashes(url: Seq<char>) -> bool {
    let full = with_scheme(url);
    full.len() >= 2 && full.last() == '/' && full.drop_last().last() == '/'
}

/// The kept URL ends in no slash, unless two stood at the end: a path put behind it is then
/// parted from it by its own slash alone.
pub proof fn law_sanitized_url_ends_in_no_slash(url: Seq<char>)
    requires
        !ends_in_two_slashes(url),
    ensures
        sanitized(url).len() > 0 ==> sanitized(url).last() != '/',
{
}

/// Sanitizing twice is sanitizing once, for a URL that does not end in two slashes: so it has
/// something behind its scheme.
pub proof fn law_sanitizing_is_idempotent(url: Seq<char>)
    requires
        !ends_in_two_slashes(url),
    ensures
        sanitized(sanitized(url)) == sanitized(url),
{
    reveal_strlit("http://");
    reveal_strlit("https://");
    if url =~= Seq::empty() {
        assert(with_scheme(url) =~= "http://"@);
        assert(ends_in_two_slashes(url));
    }
    if url == "http://"@ || url == "https://"@ {
        assert(url.take(url.len() as int) =~= url);
        assert(has_scheme(url));
        assert(ends_in_two_slashes(url));
    }
    law_sanitized_url_has_a_scheme(url);
    law_sanitized_url_ends_in_no_slash(url);
}

/// A port that is written down is read back, and stands for every address.
pub proof fn law_port_reads_back(port: u16, value_is_ip: bool, host_is_ip: bool)
    ensures
        listen_address(text::decimal(port as nat), value_is_ip, host_is_ip) == Some(
            ("0.0.0.0"@, port as nat),
        ),
{
    text::lemma_decimal(port as nat);
    assert(text::decimal(port as nat)[0] != '+');
}

proof fn lemma_no_number(value: Seq<char>, at: int)
    requires
        0 <= at < value.len(),
        value[at] == ':' || value[at] == '.',
    ensures
        text::digits_value(value) is None,
    decreases value.len(),
{
    if at < value.len() - 1 {
        lemma_no_number(value.drop_last(), at);
    }
}

/// An IP address that is written down is read back, with the default port. In every such address
/// there is a dot or a colon.
pub proof fn law_address_reads_back(address: Seq<char>, at: int, host_is_ip: bool)
    requires
        0 <= at < address.len(),
        address[at] == ':' || address[at] == '.',
    ensures
        listen_address(address, true, host_is_ip) == Some((address, DEFAULT_PORT as nat)),
{
    lemma_no_number(address, at);
    if address[0] == '+' {
        lemma_no_number(address.skip(1), at - 1);
    }
}

proof fn lemma_last_colon(host: Seq<char>, port: Seq<char>)
    requires
        forall|i: int| 0 <= i < port.len() ==> #[trigger] port[i] != ':',
    ensures
        text::last_split(host + seq![':'] + port, ':') == Some((host, port)),
    decreases port.len(),
{
    let value = host + seq![':'] + port;
    if port.len() == 0 {
        assert(value.last() == ':');
        assert(value.drop_last() =~= host);
    } else {
        lemma_last_colon(host, port.drop_last());
        assert(value.drop_last() =~= host + seq![':'] + port.drop_last());
        assert(value.last() == port.last());
        assert(port.drop_last().push(port.last()) =~= port);
    }
}

/// An IP address and a port that are written down with a colon between them are read back, where
/// the whole is no IP address.
pub proof fn law_address_and_port_read_back(host: Seq<char>, port: u16)
    ensures
        host_part(host + seq![':'] + text::decimal(port as nat)) == Some(host),
        listen_address(host + seq![':'] + text::decimal(port as nat), false, true) == Some(
            (host, port as nat),
        ),
{
    let digits = text::decimal(port as nat);
    let value = host + seq![':'] + digits;
    text::lemma_decimal(port as nat);
    assert(digits[0] != '+');
    lemma_last_colon(host, digits);
    assert(value[host.len() as int] == ':');
    lemma_no_number(value, host.len() as int);
    if value[0] == '+' {
        lemma_no_number(value.skip(1), host.len() - 1);
    }
}

/// Without a terminal there is no terminal interface; on one it comes up where it is asked for, and
/// where nothing is asked for. With it nothing is written to the console; without it a dump is
/// written in Markdown, as it is where nothing is asked for, and the web interface alone has one
/// line of each exchange written.
pub proof fn law_flags_choose_the_interface(terminal: bool, tui: bool, dump: bool, web: bool)
    ensures
        !terminal ==> !chosen(terminal, tui, dump, web).tui,
        terminal && tui ==> chosen(terminal, tui, dump, web).tui,
        terminal && !tui ==> (chosen(terminal, tui, dump, web).tui <==> !dump && !web),
        chosen(terminal, tui, dump, web).tui ==> chosen(terminal, tui, dump, web).print_mode
            == PrintMode::Nothing,
        !chosen(terminal, tui, dump, web).tui && dump ==> chosen(
            terminal,
            tui,
            dump,
            web,
        ).print_mode == PrintMode::Markdown,
        !chosen(terminal, tui, dump, web).tui && !dump && web ==> chosen(
            terminal,
            tui,
            dump,
            web,
        ).print_mode == PrintMode::Oneline,
        !chosen(terminal, tui, dump, web).tui && !dump && !web ==> chosen(
            terminal,
            tui,
            dump,
            web,
        ).print_mode == PrintMode::Markdown,
{
}

/// An address is read exactly where it is a port, an IP address, or the two with a colon between
/// them, the last one in it. A port alone stands for every address, an IP address alone for the
/// port 8080, and no port is beyond 65535.
pub proof fn law_addresses_are_read_in_three_forms(
    value: Seq<char>,
    value_is_ip: bool,
    host_is_ip: bool,
    host: Seq<char>,
    port: Seq<char>,
)
    ensures
        ({
            let read = listen_address(value, value_is_ip, host_is_ip);
            let number = text::bounded_value(value, 65535);
            &&& number is Some ==> read == Some(("0.0.0.0"@, number->0))
            &&& number is None && value_is_ip ==> read == Some((value, 8080nat))
            &&& number is None && !value_is_ip && !value.contains(':') ==> read is None
            &&& number is None && !value_is_ip && !host_is_ip ==> read is None
            &&& number is None && !value_is_ip && host_is_ip && value == host + seq![':'] + port
                && !port.contains(':') ==> read == (match text::bounded_value(port, 65535) {
                Some(p) => Some((host, p)),
                None => None,
            })
            &&& read matches Some((_, p)) ==> p <= 65535
        }),
        value == host + seq![':'] + port && !port.contains(':') ==> host_part(value) == Some(host),
        !value.contains(':') ==> host_part(value) is None,
{
    text::law_last_separator_parts(value, ':', host, port);
    text::law_numbers_are_read(value, 0, 65535);
    match text::last_split(value, ':') {
        Some((_, p)) => {
            text::law_numbers_are_read(p, 0, 65535);
        },
        None => {},
    }
}

/// The URL to forward to is kept as it is, but for a scheme where it has none of the two, and but
/// for one slash at its end.
pub proof fn law_urls_are_kept_but_for_their_ends(url: Seq<char>)
    requires
        url.len() > 0,
    ensures
        ({
            let kept = if url.last() == '/' {
                url.drop_last()
            } else {
                url
            };
            if "http://"@.is_prefix_of(url) || "https://"@.is_prefix_of(url) {
                sanitized(url) == kept
            } else {
                sanitized(url) == seq!['h', 't', 't', 'p', ':', '/', '/'] + kept
            }
        }),
{
    reveal_strlit("http://");
    reveal_strlit("https://");
    text::law_prefixes_are_letters_in_front(url, "http://"@, Seq::empty());
    text::law_prefixes_are_letters_in_front(url, "https://"@, Seq::empty());
    assert("http://"@ =~= seq!['h', 't', 't', 'p', ':', '/', '/']);
    let full = "http://"@ + url;
    assert(full.last() == url.last());
    assert(full.drop_last() =~= "http://"@ + url.drop_last());
}

} // verus!
