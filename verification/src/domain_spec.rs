//! Routing records: which domain a container serves, and on which ports,
//! and how a container writes that down.
//!
//! A container lists its domains in one line, separated by spaces. Each
//! entry has the form `DOMAIN[:http[=PORT]][:https[=PORT]]`. An entry that
//! names neither `http` nor `https` asks for both. The ports default to 80
//! for HTTP and to 443 for HTTPS.

use vstd::prelude::*;
use vstd::string::StrSliceExecFns;

verus! {

/// The port of plain HTTP where an entry names none.
pub const DEFAULT_HTTP_PORT: u16 = 80;

/// The port of HTTPS where an entry names none.
pub const DEFAULT_HTTPS_PORT: u16 = 443;

/// One domain that a container answers for.
#[derive(Clone, Debug)]
pub struct DomainSpec {
    pub domain_name: String,
    /// Port for plain HTTP; `None` where the container serves none.
    pub http_port: Option<u16>,
    /// Port for HTTPS; `None` where the container serves none.
    pub https_port: Option<u16>,
}

/// A domain spec, as values.
pub struct DomainSpecView {
    pub domain_name: Seq<char>,
    pub http_port: Option<u16>,
    pub https_port: Option<u16>,
}

impl View for DomainSpec {
    type V = DomainSpecView;

    open spec fn view(&self) -> DomainSpecView {
        DomainSpecView {
            domain_name: self.domain_name@,
            http_port: self.http_port,
            https_port: self.https_port,
        }
    }
}

/// A list of domain specs, as values.
pub open spec fn spec_views(specs: Seq<DomainSpec>) -> Seq<DomainSpecView> {
    specs.map_values(|spec: DomainSpec| spec@)
}

/// An entry that is no domain spec.
#[derive(Clone, Debug)]
pub struct DomainSpecError {
    /// The entry as it was written.
    pub text: String,
}

/// `at` is where `text` is to be cut at `separator`: the place of the first
/// separator, or the end of the text where it holds none.
pub open spec fn is_cut(text: Seq<char>, separator: char, at: int) -> bool {
    &&& 0 <= at <= text.len()
    &&& at < text.len() ==> text[at] == separator
    &&& forall|j: int| 0 <= j < at ==> text[j] != separator
}

/// Where `text` is to be cut at `separator`.
pub open spec fn cut(text: Seq<char>, separator: char) -> int {
    choose|at: int| is_cut(text, separator, at)
}

/// There is one place to cut a text, and no other.
pub proof fn lemma_cut_is_unique(text: Seq<char>, separator: char, at: int)
    requires
        is_cut(text, separator, at),
    ensures
        cut(text, separator) == at,
{
    let chosen = cut(text, separator);
    assert(is_cut(text, separator, chosen));
    if chosen < at {
        assert(text[chosen] != separator);
    } else if at < chosen {
        assert(text[at] != separator);
    }
}

/// The value of a decimal digit.
pub open spec fn digit_value(c: char) -> Option<int> {
    match c {
        '0' => Some(0int),
        '1' => Some(1int),
        '2' => Some(2int),
        '3' => Some(3int),
        '4' => Some(4int),
        '5' => Some(5int),
        '6' => Some(6int),
        '7' => Some(7int),
        '8' => Some(8int),
        '9' => Some(9int),
        _ => None,
    }
}

/// The number that `digits` write in decimal; `None` where they are empty
/// or hold anything but digits.
pub open spec fn number(digits: Seq<char>) -> Option<int>
    decreases digits.len(),
{
    if digits.len() == 0 {
        None
    } else if digits.len() == 1 {
        digit_value(digits[0])
    } else {
        match (number(digits.drop_last()), digit_value(digits.last())) {
            (Some(high), Some(low)) => Some(10 * high + low),
            _ => None,
        }
    }
}

/// The port that `digits` write: a decimal number up to 65535.
pub open spec fn port_of(digits: Seq<char>) -> Option<u16> {
    match number(digits) {
        Some(n) => if n <= u16::MAX {
            Some(n as u16)
        } else {
            None
        },
        None => None,
    }
}

/// A number is written by digits only, and is at least as large as the
/// number that any of its beginnings writes.
proof fn lemma_number_of_beginning(digits: Seq<char>, k: int)
    requires
        1 <= k <= digits.len(),
        number(digits) is Some,
    ensures
        number(digits.take(k)) is Some,
        0 <= number(digits.take(k))->0 <= number(digits)->0,
        forall|j: int| 0 <= j < digits.len() ==> digit_value(#[trigger] digits[j]) is Some,
    decreases digits.len(),
{
    if digits.len() == 1 {
        assert(digits.take(k) == digits);
    } else {
        let shorter = digits.drop_last();
        lemma_number_of_beginning(shorter, if k < digits.len() {
            k
        } else {
            k - 1
        });
        if k < digits.len() {
            assert(shorter.take(k) == digits.take(k));
        } else {
            assert(digits.take(k) == digits);
        }
        assert forall|j: int| 0 <= j < digits.len() implies digit_value(#[trigger] digits[j])
            is Some by {
            if j < digits.len() - 1 {
                assert(shorter[j] == digits[j]);
            }
        }
    }
}

/// The characters of a text.
fn characters(text: &str) -> (chars: Vec<char>)
    ensures
        chars@ == text@,
{
    let mut chars: Vec<char> = Vec::new();
    for c in it: text.chars()
        invariant
            chars@ == it.seq().take(it.index() as int),
            it.seq() == text@,
    {
        chars.push(c);
    }
    chars
}

/// Where the stretch from `from` to `to` is to be cut at `separator`.
fn find(chars: &Vec<char>, from: usize, to: usize, separator: char) -> (at: usize)
    requires
        from <= to <= chars.len(),
    ensures
        from <= at <= to,
        at - from == cut(chars@.subrange(from as int, to as int), separator),
{
    let ghost stretch = chars@.subrange(from as int, to as int);
    let mut at: usize = from;
    while at < to && chars[at] != separator
        invariant
            from <= at <= to <= chars.len(),
            stretch == chars@.subrange(from as int, to as int),
            forall|j: int| 0 <= j < at - from ==> stretch[j] != separator,
        decreases to - at,
    {
        at += 1;
    }
    proof {
        lemma_cut_is_unique(stretch, separator, at - from);
    }
    at
}

/// The value of a decimal digit.
fn digit(c: char) -> (value: Option<u32>)
    ensures
        match value {
            Some(v) => digit_value(c) == Some(v as int),
            None => digit_value(c) is None,
        },
{
    match c {
        '0' => Some(0),
        '1' => Some(1),
        '2' => Some(2),
        '3' => Some(3),
        '4' => Some(4),
        '5' => Some(5),
        '6' => Some(6),
        '7' => Some(7),
        '8' => Some(8),
        '9' => Some(9),
        _ => None,
    }
}

/// The port that the stretch from `from` to `to` writes.
fn parse_port(chars: &Vec<char>, from: usize, to: usize) -> (port: Option<u16>)
    requires
        from <= to <= chars.len(),
    ensures
        port == port_of(chars@.subrange(from as int, to as int)),
{
    let ghost digits = chars@.subrange(from as int, to as int);
    if from == to {
        return None;
    }
    let mut value: u32 = 0;
    let mut at: usize = from;
    while at < to
        invariant
            from <= at <= to <= chars.len(),
            digits == chars@.subrange(from as int, to as int),
            value <= u16::MAX,
            at > from ==> number(digits.take(at - from)) == Some(value as int),
            at == from ==> value == 0,
        decreases to - at,
    {
        let ghost seen = digits.take(at - from);
        let ghost seen_next = digits.take(at - from + 1);
        proof {
            assert(seen_next.drop_last() == seen);
        }
        match digit(chars[at]) {
            None => {
                proof {
                    if number(digits) is Some {
                        lemma_number_of_beginning(digits, 1);
                    }
                }
                return None;
            },
            Some(low) => {
                value = value * 10 + low;
                if value > 65535 {
                    proof {
                        if number(digits) is Some {
                            lemma_number_of_beginning(digits, at - from + 1);
                        }
                    }
                    return None;
                }
            },
        }
        at += 1;
    }
    assert(digits.take(to - from) == digits);
    Some(value as u16)
}

/// The word `http`.
pub open spec fn http_word() -> Seq<char> {
    seq!['h', 't', 't', 'p']
}

/// The word `https`.
pub open spec fn https_word() -> Seq<char> {
    seq!['h', 't', 't', 'p', 's']
}

/// One of the two protocols, with the port it is served on.
#[derive(Clone, Copy, Debug, PartialEq, Eq, Structural)]
pub struct Service {
    /// HTTPS, not plain HTTP.
    pub secure: bool,
    pub port: u16,
}

/// What `http`, `https`, `http=PORT` or `https=PORT` asks for; `None` for
/// any other text.
pub open spec fn service_of(part: Seq<char>) -> Option<Service> {
    let at = cut(part, '=');
    let name = part.take(at);
    if name == http_word() || name == https_word() {
        let secure = name == https_word();
        if at < part.len() {
            match port_of(part.skip(at + 1)) {
                Some(port) => Some(Service { secure, port }),
                None => None,
            }
        } else {
            Some(
                Service {
                    secure,
                    port: if secure {
                        DEFAULT_HTTPS_PORT
                    } else {
                        DEFAULT_HTTP_PORT
                    },
                },
            )
        }
    } else {
        None
    }
}

/// The ports that a list of services asks for, separated by colons, given
/// the ports `http` and `https` that the list before it has asked for;
/// `None` where a part is no service or a protocol is named twice.
pub open spec fn services_from(text: Seq<char>, http: Option<u16>, https: Option<u16>) -> Option<
    (Option<u16>, Option<u16>),
>
    decreases text.len(),
{
    let at = cut(text, ':');
    match service_of(text.take(at)) {
        None => None,
        Some(service) => {
            if service.secure && https is Some || !service.secure && http is Some {
                None
            } else {
                let http = if service.secure {
                    http
                } else {
                    Some(service.port)
                };
                let https = if service.secure {
                    Some(service.port)
                } else {
                    https
                };
                if 0 <= at < text.len() {
                    services_from(text.skip(at + 1), http, https)
                } else {
                    Some((http, https))
                }
            }
        },
    }
}

/// The domain spec that `entry` writes; `None` where it writes none. The
/// domain is what stands before the first colon and is not empty. Without a
/// colon both protocols are asked for, on their default ports; with one,
/// those that the services behind it name.
pub open spec fn domain_spec_of(entry: Seq<char>) -> Option<DomainSpecView> {
    let at = cut(entry, ':');
    if at == 0 {
        None
    } else if at >= entry.len() {
        Some(
            DomainSpecView {
                domain_name: entry,
                http_port: Some(DEFAULT_HTTP_PORT),
                https_port: Some(DEFAULT_HTTPS_PORT),
            },
        )
    } else {
        match services_from(entry.skip(at + 1), None, None) {
            Some((http_port, https_port)) => Some(
                DomainSpecView { domain_name: entry.take(at), http_port, https_port },
            ),
            None => None,
        }
    }
}

/// The domain specs that `text` lists behind those of `done`: its entries,
/// separated by spaces, in their order. Spaces in a row count as one. The
/// first entry that is no domain spec is the error.
pub open spec fn domain_specs_from(text: Seq<char>, done: Seq<DomainSpecView>) -> Result<
    Seq<DomainSpecView>,
    Seq<char>,
>
    decreases text.len(),
{
    let at = cut(text, ' ');
    let entry = text.take(at);
    let next = if entry.len() == 0 {
        Ok(done)
    } else {
        match domain_spec_of(entry) {
            Some(spec) => Ok(done.push(spec)),
            None => Err(entry),
        }
    };
    match next {
        Err(entry) => Err(entry),
        Ok(done) => if 0 <= at < text.len() {
            domain_specs_from(text.skip(at + 1), done)
        } else {
            Ok(done)
        },
    }
}

/// The domain specs that `text` lists.
pub open spec fn domain_specs_of(text: Seq<char>) -> Result<Seq<DomainSpecView>, Seq<char>> {
    domain_specs_from(text, Seq::empty())
}

/// `text` holds no `separator`.
pub open spec fn free_of(text: Seq<char>, separator: char) -> bool {
    forall|i: int| 0 <= i < text.len() ==> text[i] != separator
}

/// An entry that is a domain and nothing else asks for both protocols on
/// their default ports.
pub proof fn lemma_bare_domain(entry: Seq<char>)
    requires
        entry.len() > 0,
        free_of(entry, ':'),
    ensures
        domain_spec_of(entry) == Some(
            DomainSpecView {
                domain_name: entry,
                http_port: Some(DEFAULT_HTTP_PORT),
                https_port: Some(DEFAULT_HTTPS_PORT),
            },
        ),
{
    lemma_cut_is_unique(entry, ':', entry.len() as int);
}

/// What has been read before is kept as it is, in front of what `text`
/// lists.
pub proof fn lemma_done_stays_in_front(text: Seq<char>, done: Seq<DomainSpecView>)
    ensures
        domain_specs_from(text, done) == match domain_specs_of(text) {
            Ok(more) => Ok::<Seq<DomainSpecView>, Seq<char>>(done + more),
            Err(entry) => Err(entry),
        },
    decreases text.len(),
{
    let none = Seq::<DomainSpecView>::empty();
    let at = cut(text, ' ');
    let entry = text.take(at);
    assert(done + none =~= done);
    if entry.len() == 0 {
        if 0 <= at < text.len() {
            lemma_done_stays_in_front(text.skip(at + 1), done);
        }
    } else {
        match domain_spec_of(entry) {
            Some(spec) => {
                if 0 <= at < text.len() {
                    let rest = text.skip(at + 1);
                    lemma_done_stays_in_front(rest, done.push(spec));
                    lemma_done_stays_in_front(rest, seq![spec]);
                    if domain_specs_of(rest) is Ok {
                        let more = domain_specs_of(rest)->Ok_0;
                        assert(done.push(spec) + more =~= done + (seq![spec] + more));
                    }
                }
            },
            None => {},
        }
    }
}

/// A text without spaces is a single entry.
pub proof fn lemma_single_entry(text: Seq<char>)
    requires
        text.len() > 0,
        free_of(text, ' '),
    ensures
        domain_specs_of(text) == match domain_spec_of(text) {
            Some(spec) => Ok::<Seq<DomainSpecView>, Seq<char>>(seq![spec]),
            None => Err(text),
        },
{
    lemma_cut_is_unique(text, ' ', text.len() as int);
    assert(text.take(text.len() as int) == text);
}

/// A list is read entry by entry: what an entry, a space and a text list
/// is the spec of the entry followed by what the text lists. An entry that
/// is no domain spec is the error, whatever follows it; spaces alone add
/// nothing.
pub proof fn lemma_entry_then_rest(entry: Seq<char>, rest: Seq<char>)
    requires
        free_of(entry, ' '),
    ensures
        domain_specs_of(entry + seq![' '] + rest) == if entry.len() == 0 {
            domain_specs_of(rest)
        } else {
            match domain_spec_of(entry) {
                None => Err::<Seq<DomainSpecView>, Seq<char>>(entry),
                Some(spec) => match domain_specs_of(rest) {
                    Ok(more) => Ok(seq![spec] + more),
                    Err(bad) => Err(bad),
                },
            }
        },
{
    let text = entry + seq![' '] + rest;
    let at = entry.len() as int;
    assert forall|j: int| 0 <= j < at implies text[j] != ' ' by {
    }
    lemma_cut_is_unique(text, ' ', at);
    assert(text.take(at) =~= entry);
    assert(text.skip(at + 1) =~= rest);
    if entry.len() > 0 {
        if domain_spec_of(entry) is Some {
            let spec = domain_spec_of(entry)->0;
            lemma_done_stays_in_front(rest, seq![spec]);
        }
    }
}

/// Whether the stretch from `from` to `to` reads `http`, or `https` where
/// `secure` is set.
fn reads_protocol(chars: &Vec<char>, from: usize, to: usize, secure: bool) -> (reads: bool)
    requires
        from <= to <= chars.len(),
    ensures
        reads == (chars@.subrange(from as int, to as int) == if secure {
            https_word()
        } else {
            http_word()
        }),
{
    let ghost stretch = chars@.subrange(from as int, to as int);
    let length: usize = if secure {
        5
    } else {
        4
    };
    if to - from != length {
        assert(http_word().len() == 4 && https_word().len() == 5);
        return false;
    }
    let reads = chars[from] == 'h' && chars[from + 1] == 't' && chars[from + 2] == 't' && chars[from
        + 3] == 'p' && (!secure || chars[from + 4] == 's');
    proof {
        if reads {
            assert(stretch =~= if secure {
                https_word()
            } else {
                http_word()
            });
        }
    }
    reads
}

/// The service that the stretch from `from` to `to` asks for.
fn parse_service(chars: &Vec<char>, from: usize, to: usize) -> (service: Option<Service>)
    requires
        from <= to <= chars.len(),
    ensures
        service == service_of(chars@.subrange(from as int, to as int)),
{
    let ghost part = chars@.subrange(from as int, to as int);
    let at = find(chars, from, to, '=');
    proof {
        assert(part.take(at - from) == chars@.subrange(from as int, at as int));
        if at < to {
            assert(part.skip(at - from + 1) == chars@.subrange(at + 1, to as int));
        }
    }
    let secure = if reads_protocol(chars, from, at, false) {
        false
    } else if reads_protocol(chars, from, at, true) {
        true
    } else {
        return None;
    };
    if at < to {
        match parse_port(chars, at + 1, to) {
            Some(port) => Some(Service { secure, port }),
            None => None,
        }
    } else {
        Some(
            Service {
                secure,
                port: if secure {
                    DEFAULT_HTTPS_PORT
                } else {
                    DEFAULT_HTTP_PORT
                },
            },
        )
    }
}

/// The ports that the services in the stretch from `from` to `to` ask for.
fn parse_services(chars: &Vec<char>, from: usize, to: usize) -> (ports: Option<
    (Option<u16>, Option<u16>),
>)
    requires
        from <= to <= chars.len(),
    ensures
        ports == services_from(chars@.subrange(from as int, to as int), None, None),
{
    let ghost all = chars@.subrange(from as int, to as int);
    let mut http: Option<u16> = None;
    let mut https: Option<u16> = None;
    let mut start: usize = from;
    loop
        invariant
            from <= start <= to <= chars.len(),
            all == chars@.subrange(from as int, to as int),
            services_from(all, None, None) == services_from(
                chars@.subrange(start as int, to as int),
                http,
                https,
            ),
        decreases to - start,
    {
        let ghost rest = chars@.subrange(start as int, to as int);
        let at = find(chars, start, to, ':');
        proof {
            assert(rest.take(at - start) == chars@.subrange(start as int, at as int));
            if at < to {
                assert(rest.skip(at - start + 1) == chars@.subrange(at + 1, to as int));
            }
        }
        match parse_service(chars, start, at) {
            None => {
                return None;
            },
            Some(service) => {
                if service.secure {
                    if https.is_some() {
                        return None;
                    }
                    https = Some(service.port);
                } else {
                    if http.is_some() {
                        return None;
                    }
                    http = Some(service.port);
                }
            },
        }
        if at >= to {
            return Some((http, https));
        }
        start = at + 1;
    }
}

/// The domain spec that the stretch from `from` to `to` of `text` writes.
fn parse_entry(text: &str, chars: &Vec<char>, from: usize, to: usize) -> (spec: Option<DomainSpec>)
    requires
        chars@ == text@,
        from <= to <= chars.len(),
    ensures
        match spec {
            Some(spec) => domain_spec_of(chars@.subrange(from as int, to as int)) == Some(spec@),
            None => domain_spec_of(chars@.subrange(from as int, to as int)) is None,
        },
{
    let ghost entry = chars@.subrange(from as int, to as int);
    let at = find(chars, from, to, ':');
    proof {
        assert(entry.take(at - from) == chars@.subrange(from as int, at as int));
        if at < to {
            assert(entry.skip(at - from + 1) == chars@.subrange(at + 1, to as int));
        }
    }
    if at == from {
        return None;
    }
    let domain_name = text.substring_char(from, at).to_owned();
    if at >= to {
        Some(
            DomainSpec {
                domain_name,
                http_port: Some(DEFAULT_HTTP_PORT),
                https_port: Some(DEFAULT_HTTPS_PORT),
            },
        )
    } else {
        match parse_services(chars, at + 1, to) {
            Some((http_port, https_port)) => Some(DomainSpec { domain_name, http_port, https_port }),
            None => None,
        }
    }
}

/// Reads the domain specs that a container lists in `text`. Where an entry
/// is no domain spec, the first such entry comes back as the error.
pub fn parse_domain_specs(text: &str) -> (result: Result<Vec<DomainSpec>, DomainSpecError>)
    ensures
        match result {
            Ok(specs) => domain_specs_of(text@) == Ok::<Seq<DomainSpecView>, Seq<char>>(
                spec_views(specs@),
            ),
            Err(error) => domain_specs_of(text@) == Err::<Seq<DomainSpecView>, Seq<char>>(
                error.text@,
            ),
        },
{
    let chars = characters(text);
    let to = chars.len();
    let mut specs: Vec<DomainSpec> = Vec::new();
    let mut start: usize = 0;
    assert(chars@.subrange(0, to as int) == text@);
    assert(spec_views(specs@) =~= Seq::<DomainSpecView>::empty());
    loop
        invariant
            start <= to == chars.len(),
            chars@ == text@,
            domain_specs_of(text@) == domain_specs_from(
                chars@.subrange(start as int, to as int),
                spec_views(specs@),
            ),
        decreases to - start,
    {
        let ghost rest = chars@.subrange(start as int, to as int);
        let ghost done = spec_views(specs@);
        let at = find(&chars, start, to, ' ');
        proof {
            assert(rest.take(at - start) == chars@.subrange(start as int, at as int));
            if at < to {
                assert(rest.skip(at - start + 1) == chars@.subrange(at + 1, to as int));
            }
        }
        if at > start {
            match parse_entry(text, &chars, start, at) {
                Some(spec) => {
                    specs.push(spec);
                    assert(spec_views(specs@) =~= done.push(spec@));
                },
                None => {
                    return Err(DomainSpecError { text: text.substring_char(start, at).to_owned() });
                },
            }
        }
        if at >= to {
            return Ok(specs);
        }
        start = at + 1;
    }
}

} // verus!
