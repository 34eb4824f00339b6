//! What holds of texts, numbers, paths and kernel parameters.

use vstd::prelude::*;

use crate::config::Guid;
use crate::grouping::{group_by_text, members_of, text_lt, text_order, Groups, TextOrder};
use crate::net::{lemma_dotted, lemma_split_head, octet, Ipv4Address, SocketAddress};
use crate::numeral::{
    decimal, digit_char, digit_value, digits_value, fixed_hex, lemma_digit, lemma_numeral, numeral,
    prefixed_hex, read_unsigned,
};
use crate::path::{lies_within, named, parse_parent, parse_path, path_parts, pieces, ParsedPath};
use crate::pvh::{
    canonical_name_char, kernel_token_count, law_propagation_keeps_tokens,
    linux_parameter_name_matches, linux_radix, parse_linux_uint, tsc_command_line, tsc_failure,
    tsc_parameter, tsc_parameters,
};
use crate::text::{split_at_first, split_once, tokens, words};
use crate::vtl2::octets_text;

verus! {

/// Different numbers have different numerals, and a decimal numeral is made of the ten digits
/// alone.
pub proof fn law_numerals_tell_numbers_apart(a: nat, b: nat)
    ensures
        decimal(a) == decimal(b) ==> a == b,
        prefixed_hex(a) == prefixed_hex(b) ==> a == b,
        forall|i: int| 0 <= i < decimal(a).len() ==> '0' <= #[trigger] decimal(a)[i] <= '9',
        a < 10 ==> decimal(a).len() == 1 && decimal(a)[0] as nat == '0' as nat + a,
        prefixed_hex(a).len() > 2 && prefixed_hex(a)[0] == '0' && prefixed_hex(a)[1] == 'x',
{
    lemma_numeral(a, 10);
    lemma_numeral(b, 10);
    lemma_numeral(a, 16);
    lemma_numeral(b, 16);
    if prefixed_hex(a) == prefixed_hex(b) {
        assert(prefixed_hex(a).skip(2) =~= numeral(a, 16));
        assert(prefixed_hex(b).skip(2) =~= numeral(b, 16));
    }
    assert forall|i: int| 0 <= i < decimal(a).len() implies '0' <= #[trigger] decimal(a)[i]
        <= '9' by {
        let d = choose|d: nat| d < 10 && decimal(a)[i] == #[trigger] digit_char(d);
    }
}

/// A number of fixed width has that many digits, and numbers of the same width that differ
/// in their digits have different texts.
pub proof fn law_fixed_numerals_tell_numbers_apart(a: nat, b: nat, width: nat)
    ensures
        fixed_hex(a, width).len() == width,
        forall|i: int|
            0 <= i < width ==> '0' <= #[trigger] fixed_hex(a, width)[i] <= '9' || 'a' <= fixed_hex(
                a,
                width,
            )[i] <= 'f',
        fixed_hex(a, width) == fixed_hex(b, width) && a < vstd::arithmetic::power::pow(16, width)
            && b < vstd::arithmetic::power::pow(16, width) ==> a == b,
    decreases width,
{
    reveal(vstd::arithmetic::power::pow);
    if width > 0 {
        let w = (width - 1) as nat;
        law_fixed_numerals_tell_numbers_apart(a / 16, b / 16, w);
        lemma_digit(a % 16);
        lemma_digit(b % 16);
        if fixed_hex(a, width) == fixed_hex(b, width) {
            assert(fixed_hex(a, width).last() == fixed_hex(b, width).last());
            assert(fixed_hex(a, width).drop_last() =~= fixed_hex(a / 16, w));
            assert(fixed_hex(b, width).drop_last() =~= fixed_hex(b / 16, w));
            assert(a % 16 == b % 16);
        }
        assert forall|i: int| 0 <= i < width implies '0' <= #[trigger] fixed_hex(a, width)[i]
            <= '9' || 'a' <= fixed_hex(a, width)[i] <= 'f' by {
            if i < w {
                assert(fixed_hex(a, width)[i] == fixed_hex(a / 16, w)[i]);
            }
        }
        let p = vstd::arithmetic::power::pow(16, w);
        assert(vstd::arithmetic::power::pow(16, width) == 16 * p);
    }
}

proof fn lemma_octets_text_len(octets: Seq<u8>)
    ensures
        octets_text(octets).len() == 2 * octets.len(),
    decreases octets.len(),
{
    if octets.len() > 0 {
        lemma_octets_text_len(octets.drop_last());
        law_fixed_numerals_tell_numbers_apart(octets.last() as nat, 0, 2);
    }
}

/// The text of an identifier has five groups of digits with dashes between them.
pub proof fn law_identifiers_have_five_groups(guid: &Guid, s: String)
    requires
        call_ensures(Guid::to_text, (guid,), s),
    ensures
        s@.len() == 36,
        s@[8] == '-' && s@[13] == '-' && s@[18] == '-' && s@[23] == '-',
        s@.take(8) == fixed_hex(guid.data1 as nat, 8),
        s@.subrange(9, 13) == fixed_hex(guid.data2 as nat, 4),
        s@.subrange(14, 18) == fixed_hex(guid.data3 as nat, 4),
        s@.subrange(19, 21) == fixed_hex(guid.data4@[0] as nat, 2),
        s@.subrange(34, 36) == fixed_hex(guid.data4@[7] as nat, 2),
{
    law_fixed_numerals_tell_numbers_apart(guid.data1 as nat, 0, 8);
    law_fixed_numerals_tell_numbers_apart(guid.data2 as nat, 0, 4);
    law_fixed_numerals_tell_numbers_apart(guid.data3 as nat, 0, 4);
    law_fixed_numerals_tell_numbers_apart(guid.data4@[0] as nat, 0, 2);
    law_fixed_numerals_tell_numbers_apart(guid.data4@[7] as nat, 0, 2);
    lemma_octets_text_len(guid.data4@.take(2));
    lemma_octets_text_len(guid.data4@.skip(2));
    let one = fixed_hex(guid.data1 as nat, 8);
    let two = fixed_hex(guid.data2 as nat, 4);
    let three = fixed_hex(guid.data3 as nat, 4);
    let four = octets_text(guid.data4@.take(2));
    let five = octets_text(guid.data4@.skip(2));
    assert(s@ == one + seq!['-'] + two + seq!['-'] + three + seq!['-'] + four + seq!['-'] + five);
    assert(s@.take(8) =~= one);
    assert(s@.subrange(9, 13) =~= two);
    assert(s@.subrange(14, 18) =~= three);
    let pair = guid.data4@.take(2);
    let first = pair.drop_last();
    lemma_octets_text_len(first);
    lemma_octets_text_len(first.drop_last());
    assert(octets_text(first) =~= fixed_hex(guid.data4@[0] as nat, 2));
    assert(s@.subrange(19, 21) =~= fixed_hex(guid.data4@[0] as nat, 2));
    let rest = guid.data4@.skip(2);
    lemma_octets_text_len(rest.drop_last());
    assert(s@.subrange(34, 36) =~= fixed_hex(guid.data4@[7] as nat, 2));
}

/// What is read as a number is made of digits, but for a sign before them, and is no larger
/// than asked.
pub proof fn law_numbers_are_made_of_digits(s: &str, max: u64, r: Option<u64>, i: int)
    requires
        call_ensures(read_unsigned, (s, 10, max), r),
        r is Some,
    ensures
        s@.len() > 0,
        r->0 <= max,
        0 <= i < s@.len() ==> '0' <= s@[i] <= '9' || (i == 0 && s@[0] == '+' && s@.len() > 1),
        s@.len() == 1 ==> s@[0] as nat == '0' as nat + r->0,
{
    let digits = if s@[0] == '+' {
        s@.skip(1)
    } else {
        s@
    };
    if 0 <= i < s@.len() {
        if s@[0] == '+' {
            if i > 0 {
                assert(digits[i - 1] == s@[i]);
            }
        } else {
            assert(digits[i] == s@[i]);
        }
    }
    if s@.len() == 1 {
        assert(digits[0] == s@[0]);
        assert(digits.drop_last() =~= Seq::<char>::empty());
        assert(digits_value(digits.drop_last(), 10) == 0);
    }
}

/// Four numbers below 256 with dots between them are an address, the first one the most
/// significant, and the addresses that begin with 127 are those of the host itself.
pub proof fn law_addresses_are_four_numbers(
    s: &str,
    r: Option<Ipv4Address>,
    own: bool,
    a: nat,
    b: nat,
    c: nat,
    d: nat,
)
    requires
        call_ensures(Ipv4Address::parse, (s,), r),
        r is Some ==> call_ensures(Ipv4Address::is_loopback, (&r->0,), own),
        a <= 255,
        b <= 255,
        c <= 255,
        d <= 255,
        s@ == decimal(a) + seq!['.'] + decimal(b) + seq!['.'] + decimal(c) + seq!['.'] + decimal(d),
    ensures
        r is Some,
        r->0.bits == a * 0x100_0000 + b * 0x1_0000 + c * 0x100 + d,
        own <==> a == 127,
{
    lemma_dotted(a, b, c, d);
    assert(octet(r->0.bits as nat, 0) == a) by {
        assert((a * 0x100_0000 + b * 0x1_0000 + c * 0x100 + d) / 0x100_0000 == a);
    }
}

/// An endpoint that is read has the address before the colon and the port behind it.
pub proof fn law_endpoints_have_their_port(
    s: &str,
    r: Option<SocketAddress>,
    ip: &str,
    address: Option<Ipv4Address>,
    port: nat,
)
    requires
        call_ensures(SocketAddress::parse_v4, (s,), r),
        call_ensures(Ipv4Address::parse, (ip,), address),
        !ip@.contains(':'),
        port <= 65535,
        s@ == ip@ + seq![':'] + decimal(port),
    ensures
        r is Some <==> address is Some,
        r matches Some(endpoint) ==> endpoint matches SocketAddress::V4 { ip: own, port: at }
            && own.bits == address->0.bits && at == port,
{
    lemma_split_head(ip@, ':', decimal(port));
    lemma_numeral(port, 10);
}

/// A text that is split is the two parts with the separator between them, and the first part
/// has no separator.
pub proof fn law_split_parts_make_the_text(s: &str, c: char, r: Option<(String, String)>)
    requires
        call_ensures(split_once, (s, c), r),
    ensures
        r is None <==> !s@.contains(c),
        r matches Some((head, tail)) ==> s@ == head@ + seq![c] + tail@ && !head@.contains(c),
{
    s@.index_of_first_ensures(c);
    if let Some((head, tail)) = r {
        let at = s@.index_of_first(c)->0;
        assert(s@ =~= head@ + seq![c] + tail@);
        if head@.contains(c) {
            let j = choose|j: int| 0 <= j < head@.len() && head@[j] == c;
            assert(s@[j] == c);
        }
    }
}

/// The pieces of a text hold no separator.
proof fn lemma_pieces_are_plain(s: Seq<char>, c: char)
    ensures
        pieces(s, c).len() > 0,
        forall|i: int| 0 <= i < pieces(s, c).len() ==> !(#[trigger] pieces(s, c)[i]).contains(c),
    decreases s.len(),
{
    s.index_of_first_ensures(c);
    if s.contains(c) {
        let at = s.index_of_first(c)->0;
        let (head, tail) = split_at_first(s, c)->0;
        lemma_pieces_are_plain(tail, c);
        if head.contains(c) {
            let j = choose|j: int| 0 <= j < head.len() && head[j] == c;
            assert(s[j] == c);
        }
    }
}

/// What a list of pieces names is among the pieces, and is neither empty nor the current
/// directory.
proof fn lemma_named(list: Seq<Seq<char>>)
    ensures
        forall|i: int|
            0 <= i < named(list).len() ==> {
                &&& (#[trigger] named(list)[i]).len() > 0
                &&& named(list)[i] != "."@
                &&& list.contains(named(list)[i])
            },
    decreases list.len(),
{
    if list.len() > 0 {
        lemma_named(list.drop_last());
        assert(list.contains(list.last())) by {
            assert(list[list.len() - 1] == list.last());
        }
        assert forall|i: int| 0 <= i < named(list.drop_last()).len() implies list.contains(
            #[trigger] named(list.drop_last())[i],
        ) by {
            let name = named(list.drop_last())[i];
            let k = choose|k: int| 0 <= k < list.len() - 1 && list.drop_last()[k] == name;
            assert(list[k] == name);
        }
    }
}

/// A path that is taken apart begins at the root exactly where its text begins with a slash,
/// and no name along it is empty, holds a slash or is the current directory.
pub proof fn law_paths_are_made_of_names(s: &str, r: ParsedPath, i: int)
    requires
        call_ensures(parse_path, (s,), r),
    ensures
        r.absolute <==> s@.len() > 0 && s@[0] == '/',
        0 <= i < r.names@.len() ==> r.names@[i]@.len() > 0 && !r.names@[i]@.contains('/')
            && r.names@[i]@ != "."@,
{
    lemma_pieces_are_plain(s@, '/');
    lemma_named(pieces(s@, '/'));
    if 0 <= i < r.names@.len() {
        assert(r@.names[i] == r.names@[i]@);
        assert(path_parts(s@).names[i] == r.names@[i]@);
    }
}

proof fn lemma_pieces_append(s: Seq<char>, c: char, name: Seq<char>)
    requires
        !name.contains(c),
    ensures
        pieces(s + seq![c] + name, c) == pieces(s, c).push(name),
    decreases s.len(),
{
    let whole = s + seq![c] + name;
    s.index_of_first_ensures(c);
    if s.contains(c) {
        let at = s.index_of_first(c)->0;
        let (head, tail) = split_at_first(s, c)->0;
        if head.contains(c) {
            let j = choose|j: int| 0 <= j < head.len() && head[j] == c;
            assert(s[j] == c);
        }
        assert(whole =~= head + seq![c] + (tail + seq![c] + name));
        lemma_split_head(head, c, tail + seq![c] + name);
        lemma_pieces_append(tail, c, name);
        assert(pieces(whole, c) =~= pieces(s, c).push(name));
    } else {
        lemma_split_head(s, c, name);
        assert(pieces(name, c) == seq![name]);
        assert(pieces(whole, c) =~= seq![s].push(name));
    }
}

/// A name below a directory has that directory as its parent, and lies within it.
pub proof fn law_names_lie_below_their_parent(
    directory: &str,
    path: &str,
    name: Seq<char>,
    whole: ParsedPath,
    root: ParsedPath,
    parent: Option<ParsedPath>,
    within: bool,
)
    requires
        directory@.len() > 0,
        name.len() > 0,
        name != "."@,
        !name.contains('/'),
        path@ == directory@ + seq!['/'] + name,
        call_ensures(parse_path, (path,), whole),
        call_ensures(parse_path, (directory,), root),
        call_ensures(parse_parent, (path,), parent),
        call_ensures(lies_within, (&whole, &root), within),
    ensures
        parent is Some,
        parent->0.absolute == root.absolute && parent->0.current == root.current,
        parent->0@.names == root@.names,
        whole@.names == root@.names.push(name),
        within,
{
    let list = pieces(directory@, '/');
    lemma_pieces_are_plain(directory@, '/');
    lemma_pieces_append(directory@, '/', name);
    assert(list.push(name).drop_last() =~= list);
    assert(path@[0] == directory@[0]);
    assert(named(list.push(name)) == named(list).push(name));
    assert(named(list).push(name).drop_last() =~= named(list));
    assert(whole@.names.take(root@.names.len() as int) =~= root@.names);
}

/// To lie within a directory is to have its names first: a path lies within itself, and
/// what lies within something that lies within a third lies within the third.
pub proof fn law_within_is_an_order(
    a: &ParsedPath,
    b: &ParsedPath,
    c: &ParsedPath,
    aa: bool,
    ab: bool,
    bc: bool,
    ac: bool,
)
    requires
        call_ensures(lies_within, (a, a), aa),
        call_ensures(lies_within, (a, b), ab),
        call_ensures(lies_within, (b, c), bc),
        call_ensures(lies_within, (a, c), ac),
    ensures
        aa,
        ab && bc ==> ac,
        ab ==> b.names@.len() <= a.names@.len() && a.absolute == b.absolute,
        ab ==> forall|i: int| 0 <= i < b.names@.len() ==> (#[trigger] b.names@[i])@ == a.names@[i]@,
{
    assert(a@.names.take(a@.names.len() as int) =~= a@.names);
    if ab {
        assert forall|i: int| 0 <= i < b.names@.len() implies (#[trigger] b.names@[i])@
            == a.names@[i]@ by {
            assert(b@.names[i] == a@.names.take(b@.names.len() as int)[i]);
        }
    }
    if ab && bc {
        assert(a@.names.take(c@.names.len() as int) =~= c@.names) by {
            assert(b@.names.take(c@.names.len() as int) == c@.names);
            assert forall|i: int| 0 <= i < c@.names.len() implies #[trigger] a@.names[i]
                == c@.names[i] by {
                assert(b@.names.take(c@.names.len() as int)[i] == b@.names[i]);
                assert(a@.names.take(b@.names.len() as int)[i] == a@.names[i]);
            }
        }
    }
}

/// Kernel parameter names are the same where they differ in hyphens and underscores alone.
pub proof fn law_parameter_names_differ_in_dashes_only(
    actual: &str,
    expected: &str,
    same: bool,
    i: int,
)
    requires
        call_ensures(linux_parameter_name_matches, (actual, expected), same),
    ensures
        actual@ == expected@ ==> same,
        same ==> actual@.len() == expected@.len(),
        same && 0 <= i < actual@.len() ==> actual@[i] == expected@[i] || (actual@[i] == '-'
            && expected@[i] == '_') || (actual@[i] == '_' && expected@[i] == '-'),
        actual@.len() == expected@.len() && (forall|k: int|
            0 <= k < actual@.len() ==> (#[trigger] actual@[k]) == expected@[k] || (actual@[k]
                == '-' && expected@[k] == '_') || (actual@[k] == '_' && expected@[k] == '-'))
            ==> same,
{
    let a = actual@.map_values(|c: char| canonical_name_char(c));
    let b = expected@.map_values(|c: char| canonical_name_char(c));
    if same {
        assert(a == b);
        assert(a.len() == b.len());
        if 0 <= i < actual@.len() {
            assert(a[i] == b[i]);
        }
    }
    if actual@.len() == expected@.len() && (forall|k: int|
        0 <= k < actual@.len() ==> (#[trigger] actual@[k]) == expected@[k] || (actual@[k] == '-'
            && expected@[k] == '_') || (actual@[k] == '_' && expected@[k] == '-')) {
        assert(a =~= b);
    }
}

/// A kernel parameter with a quote on one side only is no number, nor is an empty one.
pub proof fn law_half_quoted_values_are_no_numbers(value: &str, r: Option<u32>)
    requires
        call_ensures(parse_linux_uint, (value,), r),
    ensures
        value@.len() == 0 ==> r is None,
        value@.len() > 0 && value@[0] == '"' && value@.last() != '"' ==> r is None,
        value@.len() > 0 && value@[0] != '"' && value@.last() == '"' ==> r is None,
        value@.len() > 0 && value@[0] == '-' ==> r is None,
{
    let v = value@;
    if v.len() > 0 && v[0] == '-' && r is Some {
        assert(digit_value(v[0]) is None);
        assert(linux_radix(v) == 10);
    }
}

/// A frequency is offered to a guest from half a gigahertz to ten gigahertz, and a
/// guest that names none is told it in kilohertz.
pub proof fn law_offered_frequencies(cmdline: Seq<char>, hz: nat)
    ensures
        tsc_failure(cmdline, hz) is None ==> 500_000_000 <= hz <= 10_000_000_000,
        500_000_000 <= hz <= 10_000_000_000 && tsc_parameters(tokens(cmdline)).len() == 0
            ==> tsc_failure(cmdline, hz) is None,
        tsc_failure(cmdline, hz) is None && tsc_parameters(tokens(cmdline)).len() == 0 ==> words(
            tsc_command_line(cmdline, hz),
        ).contains("tsc_early_khz="@ + decimal(hz / 1000)),
        tsc_parameters(tokens(cmdline)).len() > 1 ==> tsc_failure(cmdline, hz) is Some,
{
    if tsc_failure(cmdline, hz) is None && tsc_parameters(tokens(cmdline)).len() == 0 {
        law_propagation_keeps_tokens(cmdline, hz);
        lemma_kernel_token_count(tokens(cmdline));
        let at = kernel_token_count(tokens(cmdline));
        assert(words(cmdline).len() == tokens(cmdline).len());
        let parameter = tsc_parameter(hz / 1000);
        assert(words(cmdline).insert(at, parameter)[at] == parameter);
    }
}

proof fn lemma_kernel_token_count(ts: Seq<(int, Seq<char>)>)
    ensures
        0 <= kernel_token_count(ts) <= ts.len(),
    decreases ts.len(),
{
    if ts.len() > 0 && ts[0].1 != "--"@ {
        lemma_kernel_token_count(ts.skip(1));
    }
}

proof fn lemma_text_lt(a: Seq<char>, b: Seq<char>, c: Seq<char>)
    ensures
        !text_lt(a, a),
        text_lt(a, b) && text_lt(b, c) ==> text_lt(a, c),
        text_lt(a, b) || text_lt(b, a) || a == b,
        a.len() < b.len() && b.take(a.len() as int) == a ==> text_lt(a, b),
    decreases a.len() + b.len() + c.len(),
{
    if a.len() > 0 && b.len() > 0 && c.len() > 0 {
        lemma_text_lt(a.skip(1), b.skip(1), c.skip(1));
        if a[0] == b[0] && a.skip(1) == b.skip(1) {
            assert(a =~= seq![a[0]] + a.skip(1));
            assert(b =~= seq![b[0]] + b.skip(1));
        }
        if a.len() < b.len() && b.take(a.len() as int) == a {
            assert(b.take(a.len() as int)[0] == a[0]);
            assert(b.skip(1).take(a.len() - 1) =~= a.skip(1));
        }
    } else if a.len() > 0 && b.len() > 0 {
        lemma_text_lt(a.skip(1), b.skip(1), c);
        if a[0] == b[0] && a.skip(1) == b.skip(1) {
            assert(a =~= seq![a[0]] + a.skip(1));
            assert(b =~= seq![b[0]] + b.skip(1));
        }
        if a.len() < b.len() && b.take(a.len() as int) == a {
            assert(b.take(a.len() as int)[0] == a[0]);
            assert(b.skip(1).take(a.len() - 1) =~= a.skip(1));
        }
    } else if a.len() > 0 {
        lemma_text_lt(a.skip(1), b, c);
    } else if b.len() == 0 {
        assert(a =~= b);
    }
}

/// Texts are in one order: two texts are the same or one comes before the other, what comes
/// before a text comes before what is behind it, and the beginning of a text comes first.
pub proof fn law_texts_are_ordered(
    a: &str,
    b: &str,
    c: &str,
    ab: TextOrder,
    ba: TextOrder,
    bc: TextOrder,
    ac: TextOrder,
)
    requires
        call_ensures(text_order, (a, b), ab),
        call_ensures(text_order, (b, a), ba),
        call_ensures(text_order, (b, c), bc),
        call_ensures(text_order, (a, c), ac),
    ensures
        ab is Same <==> a@ == b@,
        ab is Before <==> ba is After,
        ab is Before && bc is Before ==> ac is Before,
        a@.len() < b@.len() && b@.take(a@.len() as int) == a@ ==> ab is Before,
        a@.len() > 0 && b@.len() > 0 && a@[0] < b@[0] ==> ab is Before,
{
    lemma_text_lt(a@, b@, c@);
    lemma_text_lt(b@, a@, c@);
    match ab {
        TextOrder::Before => {},
        TextOrder::Same => {},
        TextOrder::After => {},
    }
    match ba {
        TextOrder::Before => {},
        TextOrder::Same => {},
        TextOrder::After => {},
    }
}

proof fn lemma_members(keys: Seq<Option<String>>, text: Seq<char>, n: int, k: usize)
    requires
        0 <= n <= keys.len() <= usize::MAX,
    ensures
        members_of(keys, text, n).contains(k) <==> k < n && keys[k as int] is Some
            && keys[k as int]->0@ == text,
    decreases n,
{
    if n > 0 {
        lemma_members(keys, text, n - 1, k);
        let before = members_of(keys, text, n - 1);
        if keys[n - 1] is Some && keys[n - 1]->0@ == text {
            let after = before.push((n - 1) as usize);
            assert(after[before.len() as int] == (n - 1) as usize);
            if before.contains(k) {
                let i = choose|i: int| 0 <= i < before.len() && before[i] == k;
                assert(after[i] == k);
            }
        }
    }
}

/// Entries are in a group exactly where they have its text, and no text has two groups.
pub proof fn law_groups_hold_what_has_their_text(
    keys: &Vec<Option<String>>,
    groups: Groups,
    i: int,
    j: int,
    k: usize,
)
    requires
        call_ensures(group_by_text, (keys,), groups),
        0 <= i < groups.keys@.len(),
        0 <= j < groups.keys@.len(),
        keys@.len() <= usize::MAX,
    ensures
        groups.members@.len() == groups.keys@.len(),
        groups.members@[i]@.contains(k) <==> k < keys@.len() && keys@[k as int] is Some
            && keys@[k as int]->0@ == groups.keys@[i]@,
        i != j ==> groups.keys@[i]@ != groups.keys@[j]@,
{
    let n = keys@.len() as int;
    lemma_members(keys@, groups.keys@[i]@, n, k);
    assert(groups.members@[i]@ == members_of(keys@, groups.keys@[i]@, n));
    lemma_text_lt(groups.keys@[i]@, groups.keys@[i]@, groups.keys@[i]@);
    if i < j {
        assert(text_lt(groups.keys@[i]@, groups.keys@[j]@));
    } else if j < i {
        assert(text_lt(groups.keys@[j]@, groups.keys@[i]@));
    }
}

/// Every entry with a text is in some group.
pub proof fn law_every_text_has_a_group(keys: &Vec<Option<String>>, groups: Groups, k: int)
    requires
        call_ensures(group_by_text, (keys,), groups),
        0 <= k < keys@.len(),
        keys@[k] is Some,
    ensures
        exists|i: int|
            0 <= i < groups.keys@.len() && (#[trigger] groups.keys@[i])@ == keys@[k]->0@,
{
    assert(keys@[k] is Some);
}

} // verus!
