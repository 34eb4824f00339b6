//! Laws that span the microVM command-line operations.

use vstd::prelude::*;

use crate::config::HostOs;
use crate::launch::{names_tier, with_tier, SNAPSHOT_TIER_PREFIX};
use crate::microvm::{
    base_command_line, blank_joined, built_command_line, command_line_on, command_line_refusal,
    device_slot, discovered,
    discovery_token, discovery_tokens, has_reserved_token, is_reserved_token, nonempty,
    slot_refusal, user_args_refusal, MICROVM_BASE_COMMAND_LINE, MICROVM_COMMAND_LINE_MAX_SIZE,
    MICROVM_VIRTIO_MMIO_LEN,
};
use crate::numeral::{decimal, lemma_digit, lemma_numeral, numeral, prefixed_hex};
use crate::text::{
    byte_len, has_prefix, is_space, is_word, lemma_tokens_concat, lemma_tokens_shift,
    lemma_tokens_space, lemma_tokens_word, lemma_with_prefix_concat, lemma_with_prefix_uniform,
    list_has_prefix, tokens, tokens_at, with_prefix, words,
};

verus! {

/// The words of two texts with a blank between them.
pub proof fn lemma_words_blank(a: Seq<char>, b: Seq<char>)
    ensures
        words(a + seq![' '] + b) == words(a) + words(b),
{
    let n = a.len() as int;
    assert(a + seq![' '] + b =~= a + (seq![' '] + b));
    lemma_tokens_concat(a, seq![' '] + b, 0);
    lemma_tokens_concat(seq![' '], b, n);
    lemma_tokens_space(' ', n);
    lemma_tokens_shift(b, 0, n + 1);
    let moved = tokens_at(b, n + 1);
    assert(Seq::<(int, Seq<char>)>::empty() + moved =~= moved);
    assert(tokens(a + seq![' '] + b) == tokens(a) + moved);
    assert forall|i: int| 0 <= i < words(a + seq![' '] + b).len() implies #[trigger] words(
        a + seq![' '] + b,
    )[i] == (words(a) + words(b))[i] by {
        if i >= tokens(a).len() {
            let j = i - tokens(a).len();
            assert(moved[j] == (tokens(b)[j].0 + (n + 1), tokens(b)[j].1));
        }
    }
    assert(words(a + seq![' '] + b) =~= words(a) + words(b));
}

/// The words of a list of texts, one text after the other.
pub open spec fn all_words(list: Seq<Seq<char>>) -> Seq<Seq<char>>
    decreases list.len(),
{
    if list.len() == 0 {
        Seq::empty()
    } else {
        all_words(list.drop_last()) + words(list.last())
    }
}

pub proof fn lemma_words_joined(a: Seq<char>, list: Seq<Seq<char>>)
    ensures
        words(a + blank_joined(list)) == words(a) + all_words(list),
    decreases list.len(),
{
    if list.len() == 0 {
        assert(a + blank_joined(list) =~= a);
        assert(words(a) + all_words(list) =~= words(a));
    } else {
        let front = list.drop_last();
        lemma_words_joined(a, front);
        assert(a + blank_joined(list) =~= (a + blank_joined(front)) + seq![' '] + list.last());
        lemma_words_blank(a + blank_joined(front), list.last());
        assert(words(a) + all_words(front) + words(list.last()) =~= words(a) + all_words(list));
    }
}

pub proof fn lemma_words_of_word(w: Seq<char>)
    requires
        is_word(w),
    ensures
        words(w) == seq![w],
{
    lemma_tokens_word(w, 0);
    assert(words(w) =~= seq![w]);
}

proof fn lemma_all_words_of_words(list: Seq<Seq<char>>)
    requires
        forall|i: int| 0 <= i < list.len() ==> is_word(#[trigger] list[i]),
    ensures
        all_words(list) == list,
    decreases list.len(),
{
    if list.len() > 0 {
        let front = list.drop_last();
        assert forall|i: int| 0 <= i < front.len() implies is_word(#[trigger] front[i]) by {
            assert(front[i] == list[i]);
        }
        lemma_all_words_of_words(front);
        assert(is_word(list[list.len() - 1]));
        lemma_words_of_word(list.last());
        assert(all_words(list) =~= list);
    }
}

/// Words of the user's arguments are not reserved, and none holds a NUL.
proof fn lemma_accepted_args(args: Seq<Seq<char>>)
    requires
        user_args_refusal(args) is None,
    ensures
        forall|i: int|
            0 <= i < all_words(nonempty(args)).len() ==> !is_reserved_token(
                #[trigger] all_words(nonempty(args))[i],
            ),
        !blank_joined(nonempty(args)).contains('\0'),
    decreases args.len(),
{
    if args.len() > 0 {
        let front = args.drop_last();
        lemma_accepted_args(front);
        let last = args.last();
        assert(!has_reserved_token(last));
        if last.len() > 0 {
            let list = nonempty(args);
            assert(list.drop_last() =~= nonempty(front));
            assert(list.last() == last);
            let head = all_words(nonempty(front));
            assert(all_words(list) == head + words(last));
            assert forall|i: int| 0 <= i < all_words(list).len() implies !is_reserved_token(
                #[trigger] all_words(list)[i],
            ) by {
                if i < head.len() {
                    assert(all_words(list)[i] == head[i]);
                } else {
                    assert(all_words(list)[i] == words(last)[i - head.len()]);
                }
            }
            let joined = blank_joined(nonempty(front));
            assert(blank_joined(list) == joined + seq![' '] + last);
            if blank_joined(list).contains('\0') {
                let i = choose|i: int|
                    0 <= i < blank_joined(list).len() && blank_joined(list)[i] == '\0';
                if i < joined.len() {
                    assert(joined[i] == '\0');
                } else if i > joined.len() {
                    assert(last[i - joined.len() - 1] == '\0');
                }
            }
        }
    }
}

/// A numeral holds neither blanks nor NULs.
proof fn lemma_numeral_chars(n: nat, radix: nat)
    requires
        2 <= radix <= 16,
    ensures
        forall|i: int|
            0 <= i < numeral(n, radix).len() ==> !is_space(#[trigger] numeral(n, radix)[i])
                && numeral(n, radix)[i] != '\0',
{
    lemma_numeral(n, radix);
    let s = numeral(n, radix);
    assert forall|i: int| 0 <= i < s.len() implies !is_space(#[trigger] s[i]) && s[i] != '\0' by {
        let d = choose|d: nat| d < radix && s[i] == #[trigger] crate::numeral::digit_char(d);
        lemma_digit(d);
    }
}

/// A discovery token is one word, announces a device, and is nothing else.
proof fn lemma_discovery_token(base: nat, irq: nat)
    ensures
        is_word(discovery_token(base, irq)),
        has_prefix(discovery_token(base, irq), "virtio_mmio.device="@),
        !has_prefix(discovery_token(base, irq), "earlycon="@),
        !has_prefix(discovery_token(base, irq), "console="@),
        !discovery_token(base, irq).contains('\0'),
{
    reveal_strlit("virtio_mmio.device=");
    reveal_strlit("earlycon=");
    reveal_strlit("console=");
    reveal_strlit("@");
    reveal_strlit(":");
    let t = discovery_token(base, irq);
    let p = "virtio_mmio.device="@;
    let len = prefixed_hex(MICROVM_VIRTIO_MMIO_LEN as nat);
    let at = prefixed_hex(base);
    let line = decimal(irq);
    lemma_numeral_chars(MICROVM_VIRTIO_MMIO_LEN as nat, 16);
    lemma_numeral_chars(base, 16);
    lemma_numeral_chars(irq, 10);
    let n1 = p.len() as int;
    let n2 = n1 + len.len();
    let n3 = n2 + 1 + at.len();
    assert forall|i: int| 0 <= i < t.len() implies !is_space(#[trigger] t[i]) && t[i] != '\0' by {
        if i < n1 {
            assert(t[i] == p[i]);
        } else if i < n2 {
            assert(t[i] == len[i - n1]);
            if i - n1 >= 2 {
                assert(len[i - n1] == numeral(MICROVM_VIRTIO_MMIO_LEN as nat, 16)[i - n1 - 2]);
            }
        } else if i == n2 {
            assert(t[i] == '@');
        } else if i < n3 {
            assert(t[i] == at[i - n2 - 1]);
            if i - n2 - 1 >= 2 {
                assert(at[i - n2 - 1] == numeral(base, 16)[i - n2 - 1 - 2]);
            }
        } else if i == n3 {
            assert(t[i] == ':');
        } else {
            assert(t[i] == line[i - n3 - 1]);
        }
    }
    assert(t.take(n1) =~= p);
    assert(t[0] == 'v');
    if has_prefix(t, "earlycon="@) {
        assert(t.take(9)[0] == "earlycon="@[0]);
    }
    if has_prefix(t, "console="@) {
        assert(t.take(8)[0] == "console="@[0]);
    }
}

proof fn lemma_discovery_list(
    ids: Seq<Seq<char>>,
    hypervisor: Option<Seq<char>>,
    host: HostOs,
)
    requires
        slot_refusal(ids, hypervisor, host) is None,
    ensures
        discovery_tokens(ids, hypervisor, host).len() == ids.len(),
        forall|i: int|
            #![trigger discovery_tokens(ids, hypervisor, host)[i]]
            0 <= i < ids.len() ==> {
                let t = discovery_tokens(ids, hypervisor, host)[i];
                &&& is_word(t)
                &&& has_prefix(t, "virtio_mmio.device="@)
                &&& !has_prefix(t, "earlycon="@)
                &&& !has_prefix(t, "console="@)
            },
        !blank_joined(discovery_tokens(ids, hypervisor, host)).contains('\0'),
    decreases ids.len(),
{
    if ids.len() > 0 {
        let front = ids.drop_last();
        lemma_discovery_list(front, hypervisor, host);
        let slot = device_slot(ids.last(), hypervisor, host)->Ok_0;
        let token = discovery_token(slot.0, slot.1);
        lemma_discovery_token(slot.0, slot.1);
        let before = discovery_tokens(front, hypervisor, host);
        let all = discovery_tokens(ids, hypervisor, host);
        assert(all == before.push(token));
        assert forall|i: int| #![trigger all[i]] 0 <= i < ids.len() implies {
            let t = all[i];
            &&& is_word(t)
            &&& has_prefix(t, "virtio_mmio.device="@)
            &&& !has_prefix(t, "earlycon="@)
            &&& !has_prefix(t, "console="@)
        } by {
            if i < front.len() {
                assert(all[i] == before[i]);
            } else {
                assert(all[i] == token);
            }
        }
        assert(all.drop_last() =~= before);
        let joined = blank_joined(before);
        assert(blank_joined(all) == joined + seq![' '] + token);
        if blank_joined(all).contains('\0') {
            let i = choose|i: int|
                0 <= i < blank_joined(all).len() && blank_joined(all)[i] == '\0';
            if i < joined.len() {
                assert(joined[i] == '\0');
            } else if i > joined.len() {
                assert(token[i - joined.len() - 1] == '\0');
            }
        }
    }
}

/// The token that names the console of a machine.
spec fn console_token(console: bool) -> Seq<char> {
    if console {
        "console=hvc1"@
    } else {
        "console=hvc0"@
    }
}

/// The words of the base command line.
proof fn lemma_base_words(console: bool)
    ensures
        words(base_command_line(console)) == seq![
            "earlycon=xe9"@,
            console_token(console),
            "reboot=t"@,
            "panic=-1"@,
        ],
        !base_command_line(console).contains('\0'),
{
    reveal_strlit("earlycon=xe9 console=hvc0 reboot=t panic=-1");
    reveal_strlit("earlycon=xe9 console=hvc1 reboot=t panic=-1");
    reveal_strlit("earlycon=xe9");
    reveal_strlit("console=hvc0");
    reveal_strlit("console=hvc1");
    reveal_strlit("reboot=t");
    reveal_strlit("panic=-1");
    let a = "earlycon=xe9"@;
    let b = console_token(console);
    let c = "reboot=t"@;
    let d = "panic=-1"@;
    let ab = a + seq![' '] + b;
    let abc = ab + seq![' '] + c;
    assert(base_command_line(console) =~= abc + seq![' '] + d);
    lemma_words_blank(a, b);
    lemma_words_blank(ab, c);
    lemma_words_blank(abc, d);
    lemma_words_of_word(a);
    lemma_words_of_word(b);
    lemma_words_of_word(c);
    lemma_words_of_word(d);
    assert(words(base_command_line(console)) =~= seq![a, b, c, d]);
}

/// How often the profile's own prefixes occur in the base command line.
proof fn lemma_base_prefixes(console: bool)
    ensures
        with_prefix(words(base_command_line(console)), "earlycon="@).len() == 1,
        with_prefix(words(base_command_line(console)), "console="@).len() == 1,
        with_prefix(words(base_command_line(console)), "virtio_mmio.device="@).len() == 0,
{
    lemma_base_words(console);
    reveal_strlit("earlycon=xe9");
    reveal_strlit("console=hvc0");
    reveal_strlit("console=hvc1");
    reveal_strlit("reboot=t");
    reveal_strlit("panic=-1");
    reveal_strlit("earlycon=");
    reveal_strlit("console=");
    reveal_strlit("virtio_mmio.device=");
    let a = "earlycon=xe9"@;
    let b = console_token(console);
    let c = "reboot=t"@;
    let d = "panic=-1"@;
    let e = "earlycon="@;
    let k = "console="@;
    let v = "virtio_mmio.device="@;
    assert(a.take(9) =~= e);
    assert(b.take(8) =~= k);
    assert(!has_prefix(b, e)) by {
        assert(b.take(9)[0] != e[0]);
    }
    assert(!has_prefix(a, k)) by {
        assert(a.take(8)[0] != k[0]);
    }
    let l1 = seq![a];
    let l2 = seq![a, b];
    let l3 = seq![a, b, c];
    let l4 = seq![a, b, c, d];
    assert(l4.drop_last() =~= l3);
    assert(l3.drop_last() =~= l2);
    assert(l2.drop_last() =~= l1);
    assert(l1.drop_last() =~= Seq::empty());
    assert(with_prefix(l1.drop_last(), e).len() == 0);
    assert(with_prefix(l1.drop_last(), k).len() == 0);
    assert(with_prefix(l1, e).len() == 1);
    assert(with_prefix(l1, k).len() == 0);
    assert(with_prefix(l2, e).len() == 1);
    assert(with_prefix(l2, k).len() == 1);
    assert(!has_prefix(c, e) && !has_prefix(d, e));
    assert(!has_prefix(c, k)) by {
        assert(c.take(8)[0] != k[0]);
    }
    assert(!has_prefix(d, k)) by {
        assert(d.take(8)[0] != k[0]);
    }
    assert(with_prefix(l3, e).len() == 1);
    assert(with_prefix(l3, k).len() == 1);
    assert forall|i: int| 0 <= i < l4.len() implies !has_prefix(#[trigger] l4[i], v) by {
        assert(l4[i].len() < v.len());
    }
    lemma_with_prefix_uniform(l4, v);
}

/// A command line that was built from accepted arguments, and on which the
/// devices of a machine were announced, passes validation for those devices as
/// long as it fits, where it was built for a console exactly if there is one.
pub proof fn law_built_command_line_is_valid(
    args: Seq<Seq<char>>,
    ids: Seq<Seq<char>>,
    hypervisor: Option<Seq<char>>,
    host: HostOs,
)
    requires
        user_args_refusal(args) is None,
        slot_refusal(ids, hypervisor, host) is None,
        byte_len(
            discovered(
                command_line_on(ids.contains("virtio-console"@), args),
                discovery_tokens(ids, hypervisor, host),
            ),
        ) < MICROVM_COMMAND_LINE_MAX_SIZE,
    ensures
        command_line_refusal(
            Some(
                discovered(
                    command_line_on(ids.contains("virtio-console"@), args),
                    discovery_tokens(ids, hypervisor, host),
                ),
            ),
            ids,
            hypervisor,
            host,
        ) is None,
{
    let console = ids.contains("virtio-console"@);
    let base = base_command_line(console);
    let user = nonempty(args);
    let found = discovery_tokens(ids, hypervisor, host);
    let built = command_line_on(console, args);
    let line = discovered(built, found);
    lemma_base_words(console);
    lemma_base_prefixes(console);
    lemma_accepted_args(args);
    lemma_discovery_list(ids, hypervisor, host);
    lemma_words_joined(base, user);
    lemma_words_joined(built, found);
    lemma_all_words_of_words(found);
    let uw = all_words(user);
    assert(words(line) == words(base) + uw + found);
    assert(words(line).take(words(base).len() as int) =~= words(base));
    let e = "earlycon="@;
    let k = "console="@;
    let v = "virtio_mmio.device="@;
    lemma_with_prefix_concat(words(base) + uw, found, e);
    lemma_with_prefix_concat(words(base) + uw, found, k);
    lemma_with_prefix_concat(words(base) + uw, found, v);
    lemma_with_prefix_concat(words(base), uw, e);
    lemma_with_prefix_concat(words(base), uw, k);
    lemma_with_prefix_concat(words(base), uw, v);
    assert forall|i: int| 0 <= i < uw.len() implies !has_prefix(#[trigger] uw[i], e) && !has_prefix(
        uw[i],
        k,
    ) && !has_prefix(uw[i], v) by {
        assert(!is_reserved_token(uw[i]));
    }
    lemma_with_prefix_uniform(uw, e);
    lemma_with_prefix_uniform(uw, k);
    lemma_with_prefix_uniform(uw, v);
    lemma_with_prefix_uniform(found, e);
    lemma_with_prefix_uniform(found, k);
    lemma_with_prefix_uniform(found, v);
    assert(with_prefix(words(line), v) =~= found);
    assert(!line.contains('\0')) by {
        if line.contains('\0') {
            let i = choose|i: int| 0 <= i < line.len() && line[i] == '\0';
            let n1 = base.len() as int;
            let n2 = n1 + blank_joined(user).len();
            if i < n1 {
                assert(base[i] == '\0');
            } else if i < n2 {
                assert(blank_joined(user)[i - n1] == '\0');
            } else {
                assert(blank_joined(found)[i - n2] == '\0');
            }
        }
    }
}

/// A built command line announces no device, so that announcing the fixed block
/// device on it is never refused for a device that is already there.
pub proof fn law_built_command_line_announces_nothing(args: Seq<Seq<char>>)
    requires
        user_args_refusal(args) is None,
    ensures
        with_prefix(words(built_command_line(args)), "virtio_mmio.device="@).len() == 0,
        list_has_prefix(words(built_command_line(args)), words(MICROVM_BASE_COMMAND_LINE@)),
{
    let base = MICROVM_BASE_COMMAND_LINE@;
    let user = nonempty(args);
    lemma_base_prefixes(false);
    lemma_accepted_args(args);
    lemma_words_joined(base, user);
    let uw = all_words(user);
    let v = "virtio_mmio.device="@;
    lemma_with_prefix_concat(words(base), uw, v);
    assert forall|i: int| 0 <= i < uw.len() implies !has_prefix(#[trigger] uw[i], v) by {
        assert(!is_reserved_token(uw[i]));
    }
    lemma_with_prefix_uniform(uw, v);
    assert(words(built_command_line(args)).take(words(base).len() as int) =~= words(base));
}

proof fn lemma_words_of_nonempty(args: Seq<Seq<char>>)
    ensures
        all_words(nonempty(args)) == all_words(args),
    decreases args.len(),
{
    if args.len() > 0 {
        lemma_words_of_nonempty(args.drop_last());
        if args.last().len() == 0 {
            assert(words(args.last()) =~= Seq::empty());
            assert(all_words(args) =~= all_words(args.drop_last()));
        } else {
            assert(nonempty(args).drop_last() =~= nonempty(args.drop_last()));
        }
    }
}

/// The kernel of a fresh microVM is told where its early output goes and which
/// console it has, and to reboot on a panic; then come the words of the user, all
/// of them and in their order.
pub proof fn law_fresh_microvm_kernel_is_told(console: bool, args: Seq<Seq<char>>)
    ensures
        words(command_line_on(console, args)) == seq![
            "earlycon=xe9"@,
            if console {
                "console=hvc1"@
            } else {
                "console=hvc0"@
            },
            "reboot=t"@,
            "panic=-1"@,
        ] + all_words(args),
{
    lemma_base_words(console);
    lemma_words_joined(base_command_line(console), nonempty(args));
    lemma_words_of_nonempty(args);
}

/// A guest is told exactly once how it is captured.
pub proof fn law_snapshot_tier_is_named_once(cmdline: Seq<char>, tier: Seq<char>)
    requires
        !names_tier(cmdline),
        is_word(SNAPSHOT_TIER_PREFIX@ + tier),
    ensures
        names_tier(with_tier(cmdline, tier)),
        with_prefix(words(with_tier(cmdline, tier)), SNAPSHOT_TIER_PREFIX@) == seq![
            SNAPSHOT_TIER_PREFIX@ + tier,
        ],
{
    let prefix = SNAPSHOT_TIER_PREFIX@;
    let token = prefix + tier;
    let line = with_tier(cmdline, tier);
    lemma_words_of_word(token);
    if cmdline.len() == 0 {
        assert(line =~= token);
        assert(words(cmdline) =~= Seq::empty());
        assert(words(line) =~= words(cmdline) + seq![token]);
    } else {
        assert(line =~= cmdline + seq![' '] + token);
        lemma_words_blank(cmdline, token);
    }
    let all = words(line);
    assert(all == words(cmdline) + seq![token]);
    assert(all.drop_last() =~= words(cmdline));
    assert(all[all.len() - 1] == token);
    assert(token.take(prefix.len() as int) =~= prefix);
    assert(has_prefix(token, prefix));
    lemma_with_prefix_uniform(words(cmdline), prefix);
    assert(with_prefix(all, prefix) =~= seq![token]);
}

} // verus!
