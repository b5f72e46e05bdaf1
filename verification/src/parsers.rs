//! Pure parsers for the command-line tool's output: each turns raw text
//! into a typed value, and on malformed input yields a documented default
//! rather than failing, because the aggregator applies field-level fallback
//! on top of them.

use vstd::prelude::*;

use crate::outside::{regex_is_match, regex_match, prefs_doc_of, parse_prefs_doc, self_dns_of,
    parse_self_dns, JsonVal};
use crate::text::{trim_of, trim, tokens_of, tokens, lines_of, lines, prefix_ci, starts_with_ci,
    contains_ci, find_ci, before_dot, take_before_dot, strip_trailing_dot, drop_trailing_dot};

verus! {

/// The pattern that recognizes a line carrying an IPv4-looking token.
pub open spec fn ipv4_pattern() -> Seq<char> {
    "\\d{1,3}\\.\\d{1,3}\\.\\d{1,3}\\.\\d{1,3}"@
}

/// The pattern that recognizes a fully-qualified mesh hostname.
pub open spec fn hostname_pattern() -> Seq<char> {
    "\\w+\\.[\\w.]+\\.ts\\.net"@
}

/// The assigned address: the raw report with surrounding whitespace removed.
pub open spec fn ip_of(raw: Seq<char>) -> Seq<char> {
    trim_of(raw)
}

/// Trim the raw address report into the address text.
pub fn get_tailscale_ip(raw: &str) -> (r: String)
    ensures
        r@ == ip_of(raw@),
{
    trim(raw)
}

/// The value of `key` in a preference document, by direct lookup on the
/// first field bearing that key.
pub open spec fn lookup_field(doc: Seq<(String, JsonVal)>, key: Seq<char>) -> Option<JsonVal>
    decreases doc.len(),
{
    if doc.len() == 0 {
        None
    } else if doc[0].0@ == key {
        Some(doc[0].1)
    } else {
        lookup_field(doc.drop_first(), key)
    }
}

/// A boolean preference: the value of `key`, false when absent or not a
/// boolean.
pub open spec fn bool_field(doc: Seq<(String, JsonVal)>, key: Seq<char>) -> bool {
    match lookup_field(doc, key) {
        Some(JsonVal::Bool(b)) => b,
        _ => false,
    }
}

/// Whether a field value counts as an advertised-routes setting: present,
/// non-null, and not the empty string.
pub open spec fn truthy(v: Option<JsonVal>) -> bool {
    match v {
        Option::None => false,
        Option::Some(JsonVal::Null) => false,
        Option::Some(JsonVal::Str(s)) => s@.len() > 0,
        Option::Some(JsonVal::Bool(_)) => true,
        Option::Some(JsonVal::Other) => true,
    }
}

/// Whether this host advertises itself as an exit node, read from its
/// preference document.
pub open spec fn is_exit_node_of_doc(doc: Seq<(String, JsonVal)>) -> bool {
    truthy(lookup_field(doc, "AdvertiseRoutes"@))
}

/// Find the first field bearing `key`.
fn find_field<'a>(doc: &'a Vec<(String, JsonVal)>, key: &str) -> (r: Option<&'a JsonVal>)
    ensures
        match r {
            Option::Some(v) => lookup_field(doc@, key@) == Some(*v),
            Option::None => lookup_field(doc@, key@) is None,
        },
{
    let n = doc.len();
    let mut i: usize = 0;
    proof {
        assert(doc@.skip(0) =~= doc@);
    }
    while i < n
        invariant
            n == doc@.len(),
            0 <= i <= n,
            lookup_field(doc@.skip(i as int), key@) == lookup_field(doc@, key@),
        decreases n - i,
    {
        proof {
            assert(doc@.skip(i as int)[0] == doc@[i as int]);
            assert(doc@.skip(i as int).drop_first() =~= doc@.skip(i + 1));
        }
        if crate::text::str_eq(doc[i].0.as_str(), key) {
            return Some(&doc[i].1);
        }
        i = i + 1;
    }
    None
}

/// Read a boolean preference from a parsed document.
pub fn get_tailscale_pref(doc: &Vec<(String, JsonVal)>, key: &str) -> (r: bool)
    ensures
        r == bool_field(doc@, key@),
{
    match find_field(doc, key) {
        Option::Some(JsonVal::Bool(b)) => *b,
        _ => false,
    }
}

/// Whether the host is an exit node, from a parsed preference document.
pub fn get_is_exit_node(doc: &Vec<(String, JsonVal)>) -> (r: bool)
    ensures
        r == is_exit_node_of_doc(doc@),
{
    match find_field(doc, "AdvertiseRoutes") {
        Option::None => false,
        Option::Some(JsonVal::Null) => false,
        Option::Some(JsonVal::Str(s)) => !s.as_str().is_empty(),
        Option::Some(JsonVal::Bool(_)) => true,
        Option::Some(JsonVal::Other) => true,
    }
}

/// A boolean preference read straight from the raw preference report:
/// false when the report is not a well-formed document.
pub open spec fn pref_of(text: Seq<char>, key: Seq<char>) -> bool {
    match prefs_doc_of(text) {
        Option::Some(doc) => bool_field(doc@, key),
        Option::None => false,
    }
}

/// Whether the host is an exit node, read straight from the raw preference
/// report; false when the report is not a well-formed document.
pub open spec fn exit_node_pref_of(text: Seq<char>) -> bool {
    match prefs_doc_of(text) {
        Option::Some(doc) => is_exit_node_of_doc(doc@),
        Option::None => false,
    }
}

/// Connectivity, from the raw preference report.
pub fn get_tailscale_con_status(text: &str) -> (r: bool)
    ensures
        r == pref_of(text@, "WantRunning"@),
{
    match parse_prefs_doc(text) {
        Option::Some(doc) => get_tailscale_pref(&doc, "WantRunning"),
        Option::None => false,
    }
}

/// SSH enablement, from the raw preference report.
pub fn get_tailscale_ssh_status(text: &str) -> (r: bool)
    ensures
        r == pref_of(text@, "RunSSH"@),
{
    match parse_prefs_doc(text) {
        Option::Some(doc) => get_tailscale_pref(&doc, "RunSSH"),
        Option::None => false,
    }
}

/// Route acceptance, from the raw preference report.
pub fn get_tailscale_routes_status(text: &str) -> (r: bool)
    ensures
        r == pref_of(text@, "RouteAll"@),
{
    match parse_prefs_doc(text) {
        Option::Some(doc) => get_tailscale_pref(&doc, "RouteAll"),
        Option::None => false,
    }
}

/// Exit-node role, from the raw preference report.
pub fn get_exit_node_status(text: &str) -> (r: bool)
    ensures
        r == exit_node_pref_of(text@),
{
    match parse_prefs_doc(text) {
        Option::Some(doc) => get_is_exit_node(&doc),
        Option::None => false,
    }
}

/// The second token of every line that the IPv4 pattern matches, in order.
pub open spec fn device_names(ls: Seq<Seq<char>>) -> Seq<Seq<char>>
    decreases ls.len(),
{
    if ls.len() == 0 {
        seq![]
    } else {
        let rest = device_names(ls.drop_last());
        let l = ls.last();
        if regex_is_match(ipv4_pattern(), l) && tokens_of(l).len() >= 2 {
            rest + seq![tokens_of(l)[1]]
        } else {
            rest
        }
    }
}

/// The device list read from line-oriented status text: the matched names
/// with the first (the host itself) removed, behind the "Select"
/// placeholder at index 0.
pub open spec fn devices_of(text: Seq<char>) -> Seq<Seq<char>> {
    let d = device_names(lines_of(text));
    seq!["Select"@] + if d.len() == 0 {
        seq![]
    } else {
        d.drop_first()
    }
}

/// Parse the peer device names out of line-oriented status text.
pub fn get_tailscale_devices(text: &str) -> (r: Vec<String>)
    ensures
        r.deep_view() == devices_of(text@),
        r.len() >= 1,
{
    let ls = lines(text);
    let ghost lsd = ls.deep_view();
    let n = ls.len();
    let mut d: Vec<String> = Vec::new();
    proof {
        assert(lsd.take(0) =~= Seq::<Seq<char>>::empty());
        assert(d.deep_view() =~= device_names(lsd.take(0)));
    }
    let mut i: usize = 0;
    while i < n
        invariant
            n == ls@.len(),
            lsd == ls.deep_view(),
            0 <= i <= n,
            d.deep_view() == device_names(lsd.take(i as int)),
        decreases n - i,
    {
        let ghost old_dv = d.deep_view();
        let ghost old_vv = d@;
        proof {
            assert(lsd.take(i + 1).drop_last() =~= lsd.take(i as int));
            assert(lsd.take(i + 1).last() == lsd[i as int]);
            assert(ls@[i as int]@ == lsd[i as int]);
        }
        let line = &ls[i];
        if regex_match("\\d{1,3}\\.\\d{1,3}\\.\\d{1,3}\\.\\d{1,3}", line.as_str()) {
            let tk = tokens(line.as_str());
            if tk.len() >= 2 {
                d.push(tk[1].clone());
                proof {
                    assert(d@ == old_vv.push(tk@[1]));
                    assert forall|j: int| 0 <= j < old_vv.len() implies d.deep_view()[j]
                        == old_dv[j] by {
                        assert(d@[j] == old_vv[j]);
                    }
                    assert(d.deep_view() =~= old_dv + seq![tokens_of(lsd[i as int])[1]]);
                }
            }
        }
        i = i + 1;
    }
    proof {
        assert(lsd.take(n as int) =~= lsd);
    }
    let mut r: Vec<String> = Vec::new();
    r.push(String::from_str("Select"));
    if d.len() > 0 {
        d.remove(0);
    }
    let ghost dd = d.deep_view();
    let ghost dvv = d@;
    r.append(&mut d);
    proof {
        let full = device_names(lsd);
        assert(r@ =~= seq![r@[0]] + dvv);
        assert forall|j: int| 0 < j < r@.len() implies r.deep_view()[j] == dd[j - 1] by {
            assert(r@[j] == dvv[j - 1]);
        }
        if full.len() == 0 {
            assert(r.deep_view() =~= devices_of(text@));
        } else {
            assert(dd =~= full.drop_first());
            assert(r.deep_view() =~= devices_of(text@));
        }
    }
    r
}

/// The exit-node name carried by every line that the hostname pattern
/// matches: the second token truncated before its first dot.
pub open spec fn exit_node_names(ls: Seq<Seq<char>>) -> Seq<Seq<char>>
    decreases ls.len(),
{
    if ls.len() == 0 {
        seq![]
    } else {
        let rest = exit_node_names(ls.drop_last());
        let l = ls.last();
        if regex_is_match(hostname_pattern(), l) && tokens_of(l).len() >= 2 {
            rest + seq![before_dot(tokens_of(l)[1])]
        } else {
            rest
        }
    }
}

/// The exit-node list read from listing text: empty input yields a single
/// "no exit nodes found" sentinel; anything else yields the matched names
/// behind the "None" placeholder at index 0.
pub open spec fn exit_nodes_of(text: Seq<char>) -> Seq<Seq<char>> {
    if text.len() == 0 {
        seq!["no exit nodes found"@]
    } else {
        seq!["None"@] + exit_node_names(lines_of(text))
    }
}

/// Parse the available exit nodes out of listing text.
pub fn get_avail_exit_nodes(text: &str) -> (r: Vec<String>)
    ensures
        r.deep_view() == exit_nodes_of(text@),
        r.len() >= 1,
{
    if text.unicode_len() == 0 {
        let mut r: Vec<String> = Vec::new();
        r.push(String::from_str("no exit nodes found"));
        proof {
            assert(r.deep_view() =~= exit_nodes_of(text@));
        }
        return r;
    }
    let ls = lines(text);
    let ghost lsd = ls.deep_view();
    let n = ls.len();
    let mut r: Vec<String> = Vec::new();
    r.push(String::from_str("None"));
    proof {
        assert(lsd.take(0) =~= Seq::<Seq<char>>::empty());
        assert(r.deep_view() =~= seq!["None"@] + exit_node_names(lsd.take(0)));
    }
    let mut i: usize = 0;
    while i < n
        invariant
            n == ls@.len(),
            lsd == ls.deep_view(),
            0 <= i <= n,
            r.deep_view() == seq!["None"@] + exit_node_names(lsd.take(i as int)),
        decreases n - i,
    {
        let ghost old_dv = r.deep_view();
        let ghost old_vv = r@;
        proof {
            assert(lsd.take(i + 1).drop_last() =~= lsd.take(i as int));
            assert(lsd.take(i + 1).last() == lsd[i as int]);
            assert(ls@[i as int]@ == lsd[i as int]);
        }
        let line = &ls[i];
        if regex_match("\\w+\\.[\\w.]+\\.ts\\.net", line.as_str()) {
            let tk = tokens(line.as_str());
            if tk.len() >= 2 {
                r.push(take_before_dot(tk[1].as_str()));
                proof {
                    assert(r@ == old_vv.push(r@[r@.len() - 1]));
                    assert forall|j: int| 0 <= j < old_vv.len() implies r.deep_view()[j]
                        == old_dv[j] by {
                        assert(r@[j] == old_vv[j]);
                    }
                    assert(r.deep_view() =~= old_dv + seq![before_dot(tokens_of(
                        lsd[i as int])[1])]);
                    assert(r.deep_view() =~= seq!["None"@] + exit_node_names(lsd.take(i + 1)));
                }
            }
        }
        i = i + 1;
    }
    proof {
        assert(lsd.take(n as int) =~= lsd);
        assert(r.deep_view() =~= exit_nodes_of(text@));
    }
    r
}

/// The second token of every line that is not a header line beginning with
/// "id" in either case.
pub open spec fn account_names(ls: Seq<Seq<char>>) -> Seq<Seq<char>>
    decreases ls.len(),
{
    if ls.len() == 0 {
        seq![]
    } else {
        let rest = account_names(ls.drop_last());
        let l = ls.last();
        if !prefix_ci(l, "id"@) && tokens_of(l).len() >= 2 {
            rest + seq![tokens_of(l)[1]]
        } else {
            rest
        }
    }
}

/// The account list read from listing text.
pub open spec fn accounts_of(text: Seq<char>) -> Seq<Seq<char>> {
    account_names(lines_of(text))
}

/// Parse the known account identifiers out of listing text.
pub fn get_acct_list(text: &str) -> (r: Vec<String>)
    ensures
        r.deep_view() == accounts_of(text@),
{
    let ls = lines(text);
    let ghost lsd = ls.deep_view();
    let n = ls.len();
    let mut r: Vec<String> = Vec::new();
    proof {
        assert(lsd.take(0) =~= Seq::<Seq<char>>::empty());
        assert(r.deep_view() =~= account_names(lsd.take(0)));
    }
    let mut i: usize = 0;
    while i < n
        invariant
            n == ls@.len(),
            lsd == ls.deep_view(),
            0 <= i <= n,
            r.deep_view() == account_names(lsd.take(i as int)),
        decreases n - i,
    {
        let ghost old_dv = r.deep_view();
        let ghost old_vv = r@;
        proof {
            assert(lsd.take(i + 1).drop_last() =~= lsd.take(i as int));
            assert(lsd.take(i + 1).last() == lsd[i as int]);
            assert(ls@[i as int]@ == lsd[i as int]);
        }
        let line = &ls[i];
        if !starts_with_ci(line.as_str(), "id") {
            let tk = tokens(line.as_str());
            if tk.len() >= 2 {
                r.push(tk[1].clone());
                proof {
                    assert(r@ == old_vv.push(tk@[1]));
                    assert forall|j: int| 0 <= j < old_vv.len() implies r.deep_view()[j]
                        == old_dv[j] by {
                        assert(r@[j] == old_vv[j]);
                    }
                    assert(r.deep_view() =~= old_dv + seq![tokens_of(lsd[i as int])[1]]);
                }
            }
        }
        i = i + 1;
    }
    proof {
        assert(lsd.take(n as int) =~= lsd);
    }
    r
}

/// The active account read from the structured status report: the DNS name
/// of the nested self record, with one trailing dot removed; empty when the
/// report carries no such name.
pub open spec fn current_account_of(text: Seq<char>) -> Seq<char> {
    match self_dns_of(text) {
        Option::Some(name) => strip_trailing_dot(name@),
        Option::None => Seq::<char>::empty(),
    }
}

/// Parse the active account out of the structured status report.
pub fn get_current_acct(text: &str) -> (r: String)
    ensures
        r@ == current_account_of(text@),
{
    match parse_self_dns(text) {
        Option::Some(name) => drop_trailing_dot(name.as_str()),
        Option::None => String::new(),
    }
}

/// Whether an account-switch report announces success: it contains the word
/// "success" in any ASCII case.
pub open spec fn switch_success_of(stdout: Seq<char>) -> bool {
    contains_ci(stdout, "success"@)
}

/// Interpret the output of an account switch.
pub fn switch_succeeded(stdout: &str) -> (r: bool)
    ensures
        r == switch_success_of(stdout@),
{
    find_ci(stdout, "success")
}

} // verus!
