//! Client-budget targets and the operator notices of compact chat.
use vstd::prelude::*;
use crate::text::{
    chars_of, collapse_whitespace, collapse_ws, decimal, decimal_chars, push_all, push_str,
    replace_all, replace_exec, string_of, has_prefix, lemma_collapse_scan_form,
    lemma_collapse_of_form,
};

verus! {

/// The command prefix that sets a client-budget target from chat.
pub open spec fn target_command_prefix() -> Seq<char> {
    "экономия_"@
}

/// The exact chat command that compacts the current chat.
pub open spec fn compact_chat_command() -> Seq<char> {
    "компакт_чат"@
}

/// The allowed targets: the multiples of `step` from 0 up to `max`, ascending.
pub open spec fn allowed_targets(max_percent: u64, step_percent: u64) -> Seq<u64> {
    Seq::new((max_percent / step_percent + 1) as nat, |k: int| (k * step_percent) as u64)
}

/// `(0..=max_percent).step_by(step_percent)`: every `step_percent`-th value from 0 to
/// `max_percent`. The limits are those the working-state store defines.
pub fn allowed_client_budget_target_values(max_percent: u64, step_percent: u64) -> (r: Vec<u64>)
    requires
        step_percent > 0,
    ensures
        r@ == allowed_targets(max_percent, step_percent),
{
    let mut r: Vec<u64> = Vec::new();
    let mut v: u64 = 0;
    let count = max_percent / step_percent;
    let mut k: u64 = 0;
    while k <= count
        invariant
            step_percent > 0,
            count == max_percent / step_percent,
            k <= count + 1,
            r@.len() == k,
            forall|j: int| 0 <= j < k ==> r@[j] == (j * step_percent) as u64,
            v == k * step_percent,
            k <= count ==> k * step_percent <= max_percent,
        decreases count + 1 - k,
    {
        r.push(v);
        proof {
            assert((k + 1) * step_percent == k * step_percent + step_percent) by (nonlinear_arith);
            if k + 1 <= count {
                assert((k + 1) * step_percent <= count * step_percent) by (nonlinear_arith)
                    requires
                        k + 1 <= count,
                ;
                assert(count * step_percent <= max_percent) by (nonlinear_arith)
                    requires
                        count == max_percent / step_percent,
                        step_percent > 0,
                ;
            }
        }
        if k == count {
            assert(r@ =~= allowed_targets(max_percent, step_percent));
            return r;
        }
        v = v + step_percent;
        k = k + 1;
    }
    assert(r@ =~= allowed_targets(max_percent, step_percent));
    r
}

/// The allowed targets start at 0, rise by `step` each, never pass `max`, and the last one
/// is within one step of `max`.
pub proof fn lemma_allowed_targets_shape(max_percent: u64, step_percent: u64)
    requires
        step_percent > 0,
    ensures
        ({
            let t = allowed_targets(max_percent, step_percent);
            &&& t.len() > 0
            &&& t[0] == 0
            &&& forall|i: int| 0 <= i < t.len() ==> #[trigger] t[i] <= max_percent && t[i] % step_percent == 0
            &&& forall|i: int| 0 <= i && i + 1 < t.len() ==> #[trigger] t[i + 1] == t[i] + step_percent
            &&& max_percent - t.last() < step_percent
        }),
{
    let t = allowed_targets(max_percent, step_percent);
    let count = max_percent / step_percent;
    assert(count * step_percent <= max_percent) by (nonlinear_arith)
        requires
            count == max_percent / step_percent,
            step_percent > 0,
    ;
    assert(max_percent - count * step_percent < step_percent) by (nonlinear_arith)
        requires
            count == max_percent / step_percent,
            step_percent > 0,
    ;
    assert forall|i: int| 0 <= i < t.len() implies #[trigger] t[i] <= max_percent && t[i] % step_percent
        == 0 by {
        assert(i * step_percent <= count * step_percent) by (nonlinear_arith)
            requires
                0 <= i <= count,
                step_percent > 0,
        ;
        assert((i * step_percent) % (step_percent as int) == 0) by (nonlinear_arith)
            requires
                step_percent > 0,
                0 <= i,
        ;
    }
    assert forall|i: int| 0 <= i && i + 1 < t.len() implies #[trigger] t[i + 1] == t[i] + step_percent by {
        assert((i + 1) * step_percent == i * step_percent + step_percent) by (nonlinear_arith);
        assert((i + 1) * step_percent <= count * step_percent) by (nonlinear_arith)
            requires
                0 <= i + 1 <= count,
                step_percent > 0,
        ;
    }
}

/// `экономия_<percent>%`.
pub fn client_budget_target_chat_command(target_percent: u64) -> (r: String)
    ensures
        r@ == target_command_prefix() + decimal(target_percent as nat) + "%"@,
{
    let mut out: Vec<char> = Vec::new();
    push_str(&mut out, "экономия_");
    let d = decimal_chars(target_percent);
    push_all(&mut out, d.as_slice());
    push_str(&mut out, "%");
    string_of(out.as_slice())
}

/// The allowed values as decimals joined by `|`.
pub open spec fn alternatives(values: Seq<u64>) -> Seq<char>
    decreases values.len(),
{
    if values.len() == 0 {
        Seq::empty()
    } else if values.len() == 1 {
        decimal(values[0] as nat)
    } else {
        alternatives(values.drop_last()) + "|"@ + decimal(values.last() as nat)
    }
}

/// `s` split at every `|`, as a regex alternation reads its alternatives.
pub open spec fn split_bars(s: Seq<char>) -> Seq<Seq<char>>
    decreases s.len(),
{
    if s.len() == 0 {
        seq![Seq::empty()]
    } else {
        let p = split_bars(s.drop_last());
        if s.last() == '|' {
            p.push(Seq::empty())
        } else {
            p.update(p.len() - 1, p.last().push(s.last()))
        }
    }
}

proof fn lemma_split_bars_len(s: Seq<char>)
    ensures
        split_bars(s).len() >= 1,
    decreases s.len(),
{
    if s.len() > 0 {
        lemma_split_bars_len(s.drop_last());
    }
}

/// Splitting text with no `|` after the last bar: the pieces before, then that text.
proof fn lemma_split_bars_append(a: Seq<char>, b: Seq<char>)
    requires
        forall|i: int| 0 <= i < b.len() ==> #[trigger] b[i] != '|',
    ensures
        split_bars(a + seq!['|'] + b) == split_bars(a).push(b),
    decreases b.len(),
{
    lemma_split_bars_len(a);
    if b.len() == 0 {
        let w = a + seq!['|'] + b;
        assert(w =~= a.push('|'));
        assert(w.drop_last() =~= a);
        assert(w.last() == '|');
        assert(b =~= Seq::<char>::empty());
        assert(split_bars(w) == split_bars(a).push(Seq::<char>::empty()));
    } else {
        let b0 = b.drop_last();
        assert forall|i: int| 0 <= i < b0.len() implies #[trigger] b0[i] != '|' by {
            assert(b0[i] == b[i]);
        }
        lemma_split_bars_append(a, b0);
        let w = a + seq!['|'] + b;
        assert(w.drop_last() =~= a + seq!['|'] + b0);
        assert(w.last() == b.last());
        assert(b[b.len() - 1] != '|');
        assert(b0.push(b.last()) =~= b);
        let p = split_bars(w.drop_last());
        assert(p == split_bars(a).push(b0));
        assert(split_bars(w) == p.update(p.len() - 1, p.last().push(w.last())));
        assert(split_bars(w) =~= split_bars(a).push(b0).update(
            split_bars(a).len() as int,
            b0.push(b.last()),
        ));
        assert(split_bars(a).push(b0).update(split_bars(a).len() as int, b) =~= split_bars(a).push(b));
    }
}

proof fn lemma_decimal_has_no_bar(n: nat)
    ensures
        forall|i: int| 0 <= i < decimal(n).len() ==> #[trigger] decimal(n)[i] != '|',
    decreases n,
{
    if n >= 10 {
        lemma_decimal_has_no_bar(n / 10);
        let d = decimal(n);
        let p = decimal(n / 10);
        assert forall|i: int| 0 <= i < d.len() implies #[trigger] d[i] != '|' by {
            if i < p.len() {
                assert(d[i] == p[i]);
            }
        }
    }
}

proof fn lemma_decimal_single(n: nat)
    ensures
        split_bars(decimal(n)) == seq![decimal(n)],
    decreases n,
{
    lemma_decimal_has_no_bar(n);
    if n < 10 {
        let d = decimal(n);
        assert(d.len() == 1);
        assert(d.drop_last() =~= Seq::<char>::empty());
        assert(split_bars(d.drop_last()) == seq![Seq::<char>::empty()]);
        assert(d.last() != '|');
        assert(Seq::<char>::empty().push(d.last()) =~= d);
        assert(seq![Seq::<char>::empty()].update(0, Seq::<char>::empty().push(decimal(n).last()))
            =~= seq![decimal(n)]);
    } else {
        lemma_decimal_single(n / 10);
        lemma_decimal_has_no_bar(n);
        let d = decimal(n);
        assert(d.drop_last() =~= decimal(n / 10));
        assert(d.last() != '|');
        assert(decimal(n / 10).push(d.last()) =~= d);
        assert(seq![decimal(n / 10)].update(0, decimal(n / 10).push(d.last())) =~= seq![d]);
    }
}

/// The alternatives of values, split at their bars, are the values' decimals.
proof fn lemma_alternatives_split(values: Seq<u64>)
    requires
        values.len() > 0,
    ensures
        split_bars(alternatives(values)) == values.map_values(|v: u64| decimal(v as nat)),
    decreases values.len(),
{
    reveal_strlit("|");
    if values.len() == 1 {
        lemma_decimal_single(values[0] as nat);
        assert(values.map_values(|v: u64| decimal(v as nat)) =~= seq![decimal(values[0] as nat)]);
    } else {
        let p = values.drop_last();
        lemma_alternatives_split(p);
        lemma_decimal_has_no_bar(values.last() as nat);
        assert("|"@ =~= seq!['|']);
        lemma_split_bars_append(alternatives(p), decimal(values.last() as nat));
        assert(values.map_values(|v: u64| decimal(v as nat)) =~= p.map_values(
            |v: u64| decimal(v as nat),
        ).push(decimal(values.last() as nat)));
    }
}

/// A law of the target-command pattern: between `^экономия_(` and `)%$`, the pattern's
/// alternatives, read at its bars, are exactly the decimals of the allowed targets in
/// order, so the command for each allowed target is the prefix, one alternative and `%`.
pub proof fn lemma_target_pattern_alternatives(max_percent: u64, step_percent: u64)
    requires
        step_percent > 0,
    ensures
        ({
            let values = allowed_targets(max_percent, step_percent);
            &&& split_bars(alternatives(values)) == values.map_values(|v: u64| decimal(v as nat))
            &&& forall|k: int|
                0 <= k < values.len() ==> target_command_prefix() + #[trigger] split_bars(
                    alternatives(values),
                )[k] + "%"@ == target_command_prefix() + decimal(values[k] as nat) + "%"@
        }),
{
    let values = allowed_targets(max_percent, step_percent);
    lemma_allowed_targets_shape(max_percent, step_percent);
    lemma_alternatives_split(values);
}

/// `^экономия_(<v1>|<v2>|...)%$` over the allowed targets.
pub fn client_budget_target_chat_command_pattern(max_percent: u64, step_percent: u64) -> (r: String)
    requires
        step_percent > 0,
    ensures
        r@ == "^"@ + target_command_prefix() + "("@ + alternatives(
            allowed_targets(max_percent, step_percent),
        ) + ")%$"@,
{
    let values = allowed_client_budget_target_values(max_percent, step_percent);
    let mut out: Vec<char> = Vec::new();
    push_str(&mut out, "^");
    push_str(&mut out, "экономия_");
    push_str(&mut out, "(");
    let ghost o0 = out@;
    let mut i: usize = 0;
    while i < values.len()
        invariant
            i <= values@.len(),
            out@ == o0 + alternatives(values@.take(i as int)),
        decreases values@.len() - i,
    {
        if i > 0 {
            push_str(&mut out, "|");
        }
        let d = decimal_chars(values[i]);
        push_all(&mut out, d.as_slice());
        proof {
            let t = values@.take(i + 1);
            assert(t.drop_last() =~= values@.take(i as int));
            if i == 0 {
                assert(values@.take(0) =~= Seq::<u64>::empty());
                assert(out@ =~= o0 + decimal(t[0] as nat));
            } else {
                assert(out@ =~= o0 + (alternatives(t.drop_last()) + "|"@ + decimal(
                    t.last() as nat,
                )));
            }
        }
        i = i + 1;
    }
    assert(values@.take(values@.len() as int) =~= values@);
    push_str(&mut out, ")%$");
    string_of(out.as_slice())
}

/// The notice shown when a compact restore has been prepared.
pub open spec fn compact_chat_notice() -> Seq<char> {
    "Подготовлен compact restore для переноса рабочей линии на новую чистую поверхность. Exact chat-команда: `"@
        + compact_chat_command() + "`."@
}

pub fn client_budget_compact_chat_notice_message() -> (r: String)
    ensures
        r@ == compact_chat_notice(),
{
    let mut out: Vec<char> = Vec::new();
    push_str(
        &mut out,
        "Подготовлен compact restore для переноса рабочей линии на новую чистую поверхность. Exact chat-команда: `",
    );
    push_str(&mut out, "компакт_чат");
    push_str(&mut out, "`.");
    string_of(out.as_slice())
}

/// The notice shown once an automatic clean-surface launch has been requested.
pub open spec fn launch_notice() -> Seq<char> {
    "Automatic clean-surface launch запрошен; проверь, что новая рабочая поверхность действительно открылась и получила startup restore, иначе используй prompt_text вручную."@
}

pub fn client_budget_compact_chat_launch_notice_message() -> (r: String)
    ensures
        r@ == launch_notice(),
{
    "Automatic clean-surface launch запрошен; проверь, что новая рабочая поверхность действительно открылась и получила startup restore, иначе используй prompt_text вручную.".to_string()
}

/// The note attached when compact chat falls back to the stored startup artifact.
pub open spec fn runtime_artifact_note() -> Seq<char> {
    "Live continuity restore не ответил вовремя, поэтому использован последний startup runtime artifact. Данные могут быть устаревшими; если видите рассогласование, запустите полноценный continuity startup и повторите compact-chat."@
}

pub fn compact_chat_runtime_artifact_note() -> (r: String)
    ensures
        r@ == runtime_artifact_note(),
{
    "Live continuity restore не ответил вовремя, поэтому использован последний startup runtime artifact. Данные могут быть устаревшими; если видите рассогласование, запустите полноценный continuity startup и повторите compact-chat.".to_string()
}

/// Older advisory wording rewritten to the current wording.
pub open spec fn advisory_text(text: Seq<char>) -> Seq<char> {
    replace_all(
        replace_all(
            replace_all(text, "Client-budget guard:"@, "Client-budget advisory signal:"@),
            "новый чат нужен сейчас"@,
            "сожми текущий чат сейчас"@,
        ),
        "новый чат рекомендован"@,
        "сожми текущий чат"@,
    )
}

fn replace_lit(s: &[char], pat: &str, rep: &str) -> (r: Vec<char>)
    requires
        pat@.len() > 0,
    ensures
        r@ == replace_all(s@, pat@, rep@),
{
    let p = chars_of(pat);
    let q = chars_of(rep);
    replace_exec(s, p.as_slice(), q.as_slice())
}

pub fn normalize_client_budget_advisory_text(text: &str) -> (r: String)
    ensures
        r@ == advisory_text(text@),
{
    proof {
        reveal_strlit("Client-budget guard:");
        reveal_strlit("новый чат нужен сейчас");
        reveal_strlit("новый чат рекомендован");
    }
    let v = chars_of(text);
    let a = replace_lit(v.as_slice(), "Client-budget guard:", "Client-budget advisory signal:");
    let b = replace_lit(a.as_slice(), "новый чат нужен сейчас", "сожми текущий чат сейчас");
    let c = replace_lit(b.as_slice(), "новый чат рекомендован", "сожми текущий чат");
    string_of(c.as_slice())
}

/// A startup runtime command with its single quotes dropped and whitespace collapsed.
pub open spec fn normalized_runtime_command(command: Seq<char>) -> Seq<char> {
    collapse_ws(replace_all(command, "'"@, Seq::empty()))
}

proof fn lemma_unquoted_has_no_quote(s: Seq<char>)
    ensures
        forall|k: int|
            0 <= k < replace_all(s, "'"@, Seq::empty()).len() ==> #[trigger] replace_all(
                s,
                "'"@,
                Seq::empty(),
            )[k] != '\'',
    decreases s.len(),
{
    reveal_strlit("'");
    if s.len() > 0 {
        let r = replace_all(s, "'"@, Seq::empty());
        if has_prefix(s, "'"@) {
            lemma_unquoted_has_no_quote(s.skip(1));
            assert(r =~= replace_all(s.skip(1), "'"@, Seq::empty()));
        } else {
            lemma_unquoted_has_no_quote(s.drop_first());
            let t = replace_all(s.drop_first(), "'"@, Seq::empty());
            assert(r == seq![s[0]] + t);
            assert(s[0] != '\'') by {
                if s[0] == '\'' {
                    assert(s.subrange(0, 1) =~= "'"@);
                }
            }
            assert forall|k: int| 0 <= k < r.len() implies #[trigger] r[k] != '\'' by {
                if k > 0 {
                    assert(r[k] == t[k - 1]);
                }
            }
        }
    }
}

proof fn lemma_unquote_without_quotes(s: Seq<char>)
    requires
        forall|k: int| 0 <= k < s.len() ==> #[trigger] s[k] != '\'',
    ensures
        replace_all(s, "'"@, Seq::empty()) == s,
    decreases s.len(),
{
    reveal_strlit("'");
    if s.len() > 0 {
        assert(!has_prefix(s, "'"@)) by {
            if has_prefix(s, "'"@) {
                assert(s.subrange(0, 1)[0] == s[0]);
            }
        }
        let t = s.drop_first();
        assert forall|k: int| 0 <= k < t.len() implies #[trigger] t[k] != '\'' by {
            assert(t[k] == s[k + 1]);
        }
        lemma_unquote_without_quotes(t);
        assert(seq![s[0]] + t =~= s);
    }
}

/// A law of startup commands: normalizing a normalized command changes nothing.
pub proof fn lemma_runtime_command_normalization_idempotent(command: Seq<char>)
    ensures
        normalized_runtime_command(normalized_runtime_command(command))
            == normalized_runtime_command(command),
{
    let x = replace_all(command, "'"@, Seq::empty());
    lemma_unquoted_has_no_quote(command);
    let n = collapse_ws(x);
    lemma_collapse_scan_form(x, x.len() as int);
    assert forall|k: int| 0 <= k < n.len() implies #[trigger] n[k] != '\'' by {
        if n[k] != ' ' {
            let j = choose|j: int| 0 <= j < x.len() && x[j] == n[k];
            assert(x[j] != '\'');
        }
    }
    lemma_unquote_without_quotes(n);
    lemma_collapse_of_form(n);
}

pub fn normalize_compact_startup_runtime_command(command: &str) -> (r: String)
    ensures
        r@ == normalized_runtime_command(command@),
{
    proof {
        reveal_strlit("'");
    }
    let v = chars_of(command);
    let without = replace_lit(v.as_slice(), "'", "");
    proof {
        reveal_strlit("");
        assert(""@ =~= Seq::<char>::empty());
    }
    let c = collapse_whitespace(without.as_slice());
    string_of(c.as_slice())
}

} // verus!
