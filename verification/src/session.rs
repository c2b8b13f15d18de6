//! The state of an interactive session: the bindings it has introduced,
//! what was run so far, and the context string that tells a provider
//! about both.

use crate::text::{
    chars_of, decimal, decimal_text, is_text_less, join_strings, joined, lines, push_all, push_str,
    lemma_less_total, lemma_less_transitive, same_text, skip_whitespace_from, slice_of,
    split_lines, starts_with, string_of, text_less,
    text_starts_with, texts, trim_end, trimmed_end, trimmed_start,
};
use crate::compiler::{CompileRequest, CompileRequestView, SourceKind, SourceKindView};
use crate::engine::{EngineError, EvalOutput, JsEngine};
use crate::provider::ProviderSelection;
use std::collections::VecDeque;
use vstd::prelude::*;

verus! {

/// How many statements, and how many snippets, a session remembers.
pub const REPL_HISTORY_LIMIT: usize = 20;

// ---------------------------------------------------------------------------
// Bounded histories
// ---------------------------------------------------------------------------

/// The last `cap` items of `items`, or all of them where there are fewer.
pub open spec fn newest<T>(items: Seq<T>, cap: nat) -> Seq<T> {
    if items.len() > cap {
        items.skip(items.len() - cap)
    } else {
        items
    }
}

/// Appends `item` and drops the oldest entries until no more than `cap`
/// are left.
pub fn push_bounded(history: &mut VecDeque<String>, item: String, cap: usize)
    ensures
        final(history)@ == newest(old(history)@.push(item), cap as nat),
        final(history)@.len() <= cap,
{
    history.push_back(item);
    let ghost all = history@;
    while history.len() > cap
        invariant
            history@.len() <= all.len(),
            history@.len() == all.len() || history@.len() >= cap,
            history@ == all.skip(all.len() - history@.len()),
        decreases history.len(),
    {
        history.pop_front();
        assert(history@ =~= all.skip(all.len() - history@.len()));
    }
    assert(all.skip(0) =~= all);
}

/// A history after each of `items` was pushed in turn.
pub open spec fn pushed_all<T>(history: Seq<T>, items: Seq<T>, cap: nat) -> Seq<T>
    decreases items.len(),
{
    if items.len() == 0 {
        history
    } else {
        newest(pushed_all(history, items.drop_last(), cap).push(items.last()), cap)
    }
}

/// Pushing items one by one keeps the newest `cap` of everything: what
/// the history held and what was pushed.
pub proof fn lemma_pushed_all_keeps_newest<T>(history: Seq<T>, items: Seq<T>, cap: nat)
    requires
        items.len() > 0,
    ensures
        pushed_all(history, items, cap) == newest(history + items, cap),
    decreases items.len(),
{
    let front = items.drop_last();
    let all = history + items;
    assert(all =~= (history + front).push(items.last()));
    if front.len() == 0 {
        assert(pushed_all(history, front, cap) == history);
        assert(all =~= history.push(items.last()));
    } else {
        lemma_pushed_all_keeps_newest(history, front, cap);
        let whole = history + front;
        let kept = newest(whole, cap);
        assert(pushed_all(history, front, cap) == kept);
        if whole.len() > cap {
            assert(kept.push(items.last()) =~= all.skip(all.len() - cap - 1));
            assert(newest(kept.push(items.last()), cap) =~= all.skip(all.len() - cap));
        }
        assert(newest(kept.push(items.last()), cap) =~= newest(all, cap));
    }
}

/// A history capped at `cap` that was empty and had `cap + extra` items
/// pushed holds `cap` items; the oldest `extra` are gone, and the item
/// that was pushed after them stands in front.
pub proof fn lemma_bounded_history<T>(items: Seq<T>, cap: nat, extra: nat)
    requires
        items.len() == cap + extra,
        cap > 0,
    ensures
        pushed_all(Seq::<T>::empty(), items, cap).len() == cap,
        pushed_all(Seq::<T>::empty(), items, cap) == items.skip(extra as int),
        pushed_all(Seq::<T>::empty(), items, cap).first() == items[extra as int],
{
    lemma_pushed_all_keeps_newest(Seq::<T>::empty(), items, cap);
    assert(Seq::<T>::empty() + items =~= items);
    assert(items.skip(0) =~= items);
}

// ---------------------------------------------------------------------------
// Module syntax
// ---------------------------------------------------------------------------

/// What is kept of one line of generated JavaScript.  An `export`
/// loses its keyword, and `default` with it; an `import` is dropped;
/// any other line stays as it is.
pub open spec fn sanitized_line(line: Seq<char>) -> Option<Seq<char>> {
    let t = trimmed_start(line);
    if starts_with(t, "export default "@) {
        Some(t.skip("export default "@.len() as int))
    } else if starts_with(t, "export "@) {
        Some(t.skip("export "@.len() as int))
    } else if starts_with(t, "import "@) {
        None
    } else {
        Some(line)
    }
}

/// The kept lines, each followed by a line feed.
pub open spec fn sanitized_lines(all: Seq<Seq<char>>) -> Seq<char>
    decreases all.len(),
{
    if all.len() == 0 {
        Seq::empty()
    } else {
        sanitized_lines(all.drop_last()) + match sanitized_line(all.last()) {
            Some(kept) => kept + "\n"@,
            None => Seq::empty(),
        }
    }
}

/// Generated JavaScript as a flat sequence of statements.
pub open spec fn sanitized(input: Seq<char>) -> Seq<char> {
    trimmed_end(sanitized_lines(lines(input)))
}

fn sanitize_line(line: &Vec<char>) -> (r: Option<Vec<char>>)
    ensures
        match r {
            Some(kept) => sanitized_line(line@) == Some(kept@),
            None => sanitized_line(line@) is None,
        },
{
    let start = skip_whitespace_from(line, 0);
    let t = slice_of(line, start, line.len());
    let export_default = chars_of("export default ");
    let export = chars_of("export ");
    let import = chars_of("import ");
    if text_starts_with(&t, &export_default) {
        Some(slice_of(&t, export_default.len(), t.len()))
    } else if text_starts_with(&t, &export) {
        Some(slice_of(&t, export.len(), t.len()))
    } else if text_starts_with(&t, &import) {
        None
    } else {
        Some(slice_of(line, 0, line.len()))
    }
}

/// Makes generated JavaScript fit for a session, which runs statements
/// and not a module: leading `import` lines go, `export default X` and
/// `export X` become `X`, line by line.
pub fn sanitize_repl_javascript(input: &str) -> (r: String)
    ensures
        r@ == sanitized(input@),
{
    let text = chars_of(input);
    let all = split_lines(&text);
    let mut out: Vec<char> = Vec::new();
    let mut i: usize = 0;
    while i < all.len()
        invariant
            i <= all.len(),
            out@ == sanitized_lines(texts(all@).take(i as int)),
        decreases all.len() - i,
    {
        proof {
            let p = texts(all@).take(i + 1);
            assert(p.drop_last() == texts(all@).take(i as int));
            assert(p.last() == all@[i as int]@);
        }
        match sanitize_line(&all[i]) {
            Some(kept) => {
                push_all(&mut out, &kept);
                push_str(&mut out, "\n");
            },
            None => {},
        }
        i += 1;
    }
    assert(texts(all@).take(all.len() as int) == texts(all@));
    let trimmed = trim_end(&out);
    string_of(&trimmed)
}

// ---------------------------------------------------------------------------
// Names in order
// ---------------------------------------------------------------------------

/// `names`, which are in ascending order, with `name` at its place.  A
/// name that is there already is not added again.
pub open spec fn with_name(names: Seq<Seq<char>>, name: Seq<char>) -> Seq<Seq<char>>
    decreases names.len(),
{
    if names.len() == 0 {
        seq![name]
    } else if names.last() == name {
        names
    } else if text_less(names.last(), name) {
        names.push(name)
    } else {
        with_name(names.drop_last(), name).push(names.last())
    }
}

/// The names of `names` in ascending order, each once.
pub open spec fn ascending(names: Seq<Seq<char>>) -> Seq<Seq<char>>
    decreases names.len(),
{
    if names.len() == 0 {
        Seq::empty()
    } else {
        with_name(ascending(names.drop_last()), names.last())
    }
}

/// Whether each name comes before all that follow it.
pub open spec fn strictly_ascending(names: Seq<Seq<char>>) -> bool {
    forall|i: int, j: int| 0 <= i < j < names.len() ==> text_less(names[i], names[j])
}

proof fn lemma_with_name_ascends(names: Seq<Seq<char>>, name: Seq<char>)
    requires
        strictly_ascending(names),
    ensures
        strictly_ascending(with_name(names, name)),
        with_name(names, name).contains(name),
        forall|k: int|
            0 <= k < names.len() ==> with_name(names, name).contains(#[trigger] names[k]),
        forall|k: int|
            0 <= k < with_name(names, name).len() ==> (#[trigger] with_name(names, name)[k])
                == name || names.contains(with_name(names, name)[k]),
    decreases names.len(),
{
    let r = with_name(names, name);
    if names.len() == 0 {
        assert(r[0] == name);
    } else if names.last() == name {
        assert(r[r.len() - 1] == name);
        assert forall|k: int| 0 <= k < names.len() implies r.contains(#[trigger] names[k]) by {
            assert(r[k] == names[k]);
        }
        assert forall|k: int| 0 <= k < r.len() implies (#[trigger] r[k]) == name
            || names.contains(r[k]) by {
            assert(names[k] == r[k]);
        }
    } else if text_less(names.last(), name) {
        assert(r[names.len() as int] == name);
        assert forall|i: int, j: int| 0 <= i < j < r.len() implies text_less(r[i], r[j]) by {
            if j == names.len() {
                if i < names.len() - 1 {
                    lemma_less_transitive(names[i], names.last(), name);
                }
            }
        }
        assert forall|k: int| 0 <= k < names.len() implies r.contains(#[trigger] names[k]) by {
            assert(r[k] == names[k]);
        }
        assert forall|k: int| 0 <= k < r.len() implies (#[trigger] r[k]) == name
            || names.contains(r[k]) by {
            if k < names.len() {
                assert(names[k] == r[k]);
            }
        }
    } else {
        let front = names.drop_last();
        let last = names.last();
        let inner = with_name(front, name);
        assert forall|i: int, j: int| 0 <= i < j < front.len() implies text_less(
            front[i],
            front[j],
        ) by {
            assert(front[i] == names[i] && front[j] == names[j]);
        }
        lemma_with_name_ascends(front, name);
        lemma_less_total(last, name);
        assert(r == inner.push(last));
        assert forall|i: int, j: int| 0 <= i < j < r.len() implies text_less(r[i], r[j]) by {
            if j == inner.len() {
                assert(r[j] == last);
                assert(r[i] == inner[i]);
                if inner[i] != name {
                    assert(front.contains(inner[i]));
                    let k = front.index_of(inner[i]);
                    assert(names[k] == inner[i]);
                    assert(text_less(names[k], names[names.len() - 1]));
                }
            } else {
                assert(r[i] == inner[i] && r[j] == inner[j]);
            }
        }
        assert(r.contains(name)) by {
            let m = inner.index_of(name);
            assert(r[m] == name);
        }
        assert forall|k: int| 0 <= k < names.len() implies r.contains(#[trigger] names[k]) by {
            if k < front.len() {
                assert(front[k] == names[k]);
                assert(inner.contains(front[k]));
                let m = inner.index_of(front[k]);
                assert(r[m] == names[k]);
            } else {
                assert(r[inner.len() as int] == names[k]);
            }
        }
        assert forall|k: int| 0 <= k < r.len() implies (#[trigger] r[k]) == name
            || names.contains(r[k]) by {
            if k < inner.len() {
                assert(r[k] == inner[k]);
                if inner[k] != name {
                    assert(front.contains(inner[k]));
                    let m = front.index_of(inner[k]);
                    assert(names[m] == r[k]);
                }
            } else {
                assert(names[names.len() - 1] == r[k]);
            }
        }
    }
}

/// The names in ascending order are the same names, each before all that
/// follow it, so that none stands there twice.
pub proof fn lemma_ascending_is_sorted(names: Seq<Seq<char>>)
    ensures
        strictly_ascending(ascending(names)),
        forall|k: int| 0 <= k < names.len() ==> ascending(names).contains(#[trigger] names[k]),
        forall|k: int|
            0 <= k < ascending(names).len() ==> names.contains(#[trigger] ascending(names)[k]),
    decreases names.len(),
{
    if names.len() > 0 {
        let front = names.drop_last();
        let sorted_front = ascending(front);
        let r = ascending(names);
        lemma_ascending_is_sorted(front);
        lemma_with_name_ascends(sorted_front, names.last());
        assert forall|k: int| 0 <= k < names.len() implies r.contains(#[trigger] names[k]) by {
            if k < front.len() {
                assert(front[k] == names[k]);
                assert(sorted_front.contains(front[k]));
                let m = sorted_front.index_of(front[k]);
                assert(r.contains(sorted_front[m]));
            }
        }
        assert forall|k: int| 0 <= k < r.len() implies names.contains(#[trigger] r[k]) by {
            if r[k] == names.last() {
                assert(names[names.len() - 1] == r[k]);
            } else {
                assert(sorted_front.contains(r[k]));
                let m = sorted_front.index_of(r[k]);
                assert(front.contains(sorted_front[m]));
                let n = front.index_of(r[k]);
                assert(names[n] == r[k]);
            }
        }
    }
}

proof fn lemma_with_name_split(names: Seq<Seq<char>>, name: Seq<char>, j: int)
    requires
        0 <= j <= names.len(),
        forall|k: int| j <= k < names.len() ==> names[k] != name && !text_less(names[k], name),
    ensures
        with_name(names, name) == with_name(names.take(j), name) + names.skip(j),
    decreases names.len() - j,
{
    if j == names.len() {
        assert(names.take(j) =~= names);
        assert(with_name(names, name) + names.skip(j) =~= with_name(names, name));
    } else {
        let front = names.drop_last();
        lemma_with_name_split(front, name, j);
        assert(front.take(j) =~= names.take(j));
        assert(front.skip(j).push(names.last()) =~= names.skip(j));
        assert(with_name(names, name) =~= with_name(names.take(j), name) + names.skip(j));
    }
}

/// Puts `name` at its place in `names`.
pub fn insert_name(names: &mut Vec<String>, name: String)
    ensures
        final(names).deep_view() == with_name(old(names).deep_view(), name@),
{
    let wanted = chars_of(name.as_str());
    let ghost before = names.deep_view();
    let mut j: usize = names.len();
    while j > 0
        invariant
            j <= names.len(),
            names.deep_view() == before,
            wanted@ == name@,
            forall|k: int|
                j <= k < before.len() ==> before[k] != name@ && !text_less(before[k], name@),
        ensures
            j == 0 || (before[j - 1] != name@ && text_less(before[j - 1], name@)),
        decreases j,
    {
        let here = chars_of(names[j - 1].as_str());
        assert(here@ == before[j - 1]);
        if same_text(&here, &wanted) {
            proof {
                lemma_with_name_split(before, name@, j as int);
                assert(before.take(j as int).last() == name@);
                assert(before.take(j as int) + before.skip(j as int) =~= before);
            }
            return ;
        }
        if is_text_less(&here, &wanted) {
            break ;
        }
        j -= 1;
    }
    proof {
        lemma_with_name_split(before, name@, j as int);
        if j > 0 {
            assert(before.take(j as int).last() == before[j - 1]);
        }
        assert(with_name(before.take(j as int), name@) == before.take(j as int).push(name@));
    }
    names.insert(j, name);
    assert(names.deep_view() =~= before.take(j as int).push(name@) + before.skip(j as int));
}

/// The names of `names` in ascending order, each once.
pub fn sort_names(names: &Vec<String>) -> (r: Vec<String>)
    ensures
        r.deep_view() == ascending(names.deep_view()),
{
    let mut out: Vec<String> = Vec::new();
    let mut i: usize = 0;
    assert(out.deep_view() =~= ascending(names.deep_view().take(0)));
    while i < names.len()
        invariant
            i <= names.len(),
            out.deep_view() == ascending(names.deep_view().take(i as int)),
        decreases names.len() - i,
    {
        proof {
            let p = names.deep_view().take(i + 1);
            assert(p.drop_last() == names.deep_view().take(i as int));
            assert(p.last() == names@[i as int]@);
        }
        insert_name(&mut out, names[i].clone());
        i += 1;
    }
    assert(names.deep_view().take(names.len() as int) == names.deep_view());
    out
}

// ---------------------------------------------------------------------------
// The context string
// ---------------------------------------------------------------------------

/// The sentence that lists the session's bindings.
pub open spec fn bindings_sentence(names: Seq<Seq<char>>) -> Seq<char> {
    "Bindings currently defined in this REPL session: "@ + joined(ascending(names), ", "@)
        + ". Avoid redeclaring them with const/let/class."@
}

/// `items`, each with its number in front, counted from one.
pub open spec fn numbered(items: Seq<Seq<char>>) -> Seq<Seq<char>> {
    Seq::new(items.len(), |i: int| decimal((i + 1) as nat) + ". "@ + items[i])
}

/// The numbered items, one on each line.
pub open spec fn recent_entries(items: Seq<Seq<char>>) -> Seq<char> {
    joined(numbered(items), "\n"@)
}

/// The sections of the context, in their fixed order; a section with
/// nothing to say is left out.
pub open spec fn context_sections(
    bindings: Seq<Seq<char>>,
    statements: Seq<Seq<char>>,
    snippets: Seq<Seq<char>>,
    status: Option<Seq<char>>,
) -> Seq<Seq<char>> {
    (if bindings.len() > 0 {
        seq![bindings_sentence(bindings)]
    } else {
        Seq::empty()
    }) + (if statements.len() > 0 {
        seq!["Previously run REPL statements (oldest to newest):\n"@ + recent_entries(statements)]
    } else {
        Seq::empty()
    }) + (if snippets.len() > 0 {
        seq![
            "Previously generated JavaScript snippets (oldest to newest):\n"@ + recent_entries(
                snippets,
            ),
        ]
    } else {
        Seq::empty()
    }) + (match status {
        Some(text) => if text.len() > 0 {
            seq![text]
        } else {
            Seq::empty()
        },
        None => Seq::empty(),
    })
}

/// The context that goes with every compile request of a session, or
/// nothing where there is nothing to say.
pub open spec fn scope_context(
    bindings: Seq<Seq<char>>,
    statements: Seq<Seq<char>>,
    snippets: Seq<Seq<char>>,
    status: Option<Seq<char>>,
) -> Option<Seq<char>> {
    let sections = context_sections(bindings, statements, snippets, status);
    if sections.len() == 0 {
        None
    } else {
        Some(joined(sections, "\n\n"@))
    }
}

/// The sentence that lists the bindings, in ascending order and each
/// once; nothing where there are none.
pub fn scope_context_text(bindings: &Vec<String>) -> (r: Option<String>)
    ensures
        r.deep_view() == if bindings@.len() == 0 {
            None
        } else {
            Some(bindings_sentence(bindings.deep_view()))
        },
{
    if bindings.len() == 0 {
        return None;
    }
    let names = sort_names(bindings);
    let mut out: Vec<char> = Vec::new();
    push_str(&mut out, "Bindings currently defined in this REPL session: ");
    let list = join_strings(&names, ", ");
    push_all(&mut out, &list);
    push_str(&mut out, ". Avoid redeclaring them with const/let/class.");
    Some(string_of(&out))
}

/// The entries of a history, numbered from one, one on each line;
/// nothing where the history is empty.
pub fn joined_recent_entries(history: &VecDeque<String>) -> (r: Option<String>)
    ensures
        r.deep_view() == if history@.len() == 0 {
            None
        } else {
            Some(recent_entries(history.deep_view()))
        },
{
    if history.len() == 0 {
        return None;
    }
    let mut parts: Vec<String> = Vec::new();
    let mut i: usize = 0;
    assert(parts.deep_view() =~= numbered(history.deep_view()).take(0));
    while i < history.len()
        invariant
            i <= history.len(),
            parts.deep_view() == numbered(history.deep_view()).take(i as int),
        decreases history.len() - i,
    {
        let mut entry: Vec<char> = decimal_text(i + 1);
        push_str(&mut entry, ". ");
        push_str(&mut entry, history[i].as_str());
        let ghost before = parts.deep_view();
        let text = string_of(&entry);
        parts.push(text);
        assert(parts.deep_view() =~= before.push(text@));
        assert(before.push(text@) =~= numbered(history.deep_view()).take(i + 1));
        i += 1;
    }
    assert(numbered(history.deep_view()).take(history.len() as int) == numbered(
        history.deep_view(),
    ));
    let text = join_strings(&parts, "\n");
    Some(string_of(&text))
}

/// Assembles the context of a session: the sentence on its bindings, the
/// statements that were run, the JavaScript that was generated for them,
/// and the status sentence, in this order and two line feeds apart.
pub fn build_repl_scope_context(
    bindings: &Vec<String>,
    statement_history: &VecDeque<String>,
    js_history: &VecDeque<String>,
    web_server_context: Option<&str>,
) -> (r: Option<String>)
    ensures
        r.deep_view() == scope_context(
            bindings.deep_view(),
            statement_history.deep_view(),
            js_history.deep_view(),
            web_server_context.deep_view(),
        ),
{
    let mut sections: Vec<String> = Vec::new();
    let ghost s0 = sections.deep_view();
    assert(s0 =~= Seq::<Seq<char>>::empty());
    if let Some(text) = scope_context_text(bindings) {
        sections.push(text);
    }
    let ghost s1 = sections.deep_view();
    assert(s1 =~= if bindings@.len() > 0 {
        seq![bindings_sentence(bindings.deep_view())]
    } else {
        Seq::empty()
    });
    if let Some(statements) = joined_recent_entries(statement_history) {
        let mut section: Vec<char> = Vec::new();
        push_str(&mut section, "Previously run REPL statements (oldest to newest):\n");
        push_str(&mut section, statements.as_str());
        sections.push(string_of(&section));
    }
    let ghost s2 = sections.deep_view();
    assert(s2 =~= s1 + if statement_history@.len() > 0 {
        seq![
            "Previously run REPL statements (oldest to newest):\n"@ + recent_entries(
                statement_history.deep_view(),
            ),
        ]
    } else {
        Seq::empty()
    });
    if let Some(snippets) = joined_recent_entries(js_history) {
        let mut section: Vec<char> = Vec::new();
        push_str(&mut section, "Previously generated JavaScript snippets (oldest to newest):\n");
        push_str(&mut section, snippets.as_str());
        sections.push(string_of(&section));
    }
    let ghost s3 = sections.deep_view();
    assert(s3 =~= s2 + if js_history@.len() > 0 {
        seq![
            "Previously generated JavaScript snippets (oldest to newest):\n"@ + recent_entries(
                js_history.deep_view(),
            ),
        ]
    } else {
        Seq::empty()
    });
    if let Some(status) = web_server_context {
        if status.unicode_len() > 0 {
            sections.push(status.to_string());
        }
    }
    assert(sections.deep_view() =~= context_sections(
        bindings.deep_view(),
        statement_history.deep_view(),
        js_history.deep_view(),
        web_server_context.deep_view(),
    ));
    if sections.len() == 0 {
        None
    } else {
        let text = join_strings(&sections, "\n\n");
        Some(string_of(&text))
    }
}

// ---------------------------------------------------------------------------
// The names that a session has introduced
// ---------------------------------------------------------------------------

/// The prefix of the names that the runtime keeps for itself.
pub open spec fn internal_prefix() -> Seq<char> {
    "__klumo_"@
}

/// Whether a global name counts as a binding of the session: it was not
/// there at the baseline, and it is not one of the runtime's own.
pub open spec fn is_introduced(name: Seq<char>, baseline: Seq<Seq<char>>) -> bool {
    !baseline.contains(name) && !starts_with(name, internal_prefix())
}

/// The names of `current` that the session has introduced, in the order
/// of `current`.
pub open spec fn introduced(current: Seq<Seq<char>>, baseline: Seq<Seq<char>>) -> Seq<Seq<char>>
    decreases current.len(),
{
    if current.len() == 0 {
        Seq::empty()
    } else if is_introduced(current.last(), baseline) {
        introduced(current.drop_last(), baseline).push(current.last())
    } else {
        introduced(current.drop_last(), baseline)
    }
}

fn holds_name(names: &Vec<String>, name: &String) -> (r: bool)
    ensures
        r == names.deep_view().contains(name@),
{
    let mut i: usize = 0;
    while i < names.len()
        invariant
            i <= names.len(),
            forall|k: int| 0 <= k < i ==> names.deep_view()[k] != name@,
        decreases names.len() - i,
    {
        if names[i] == *name {
            assert(names.deep_view()[i as int] == name@);
            return true;
        }
        i += 1;
    }
    false
}

/// The names of `current` that were not in `baseline` and are not the
/// runtime's own.
pub fn introduced_names(current: &Vec<String>, baseline: &Vec<String>) -> (r: Vec<String>)
    ensures
        r.deep_view() == introduced(current.deep_view(), baseline.deep_view()),
{
    let prefix = chars_of("__klumo_");
    let mut out: Vec<String> = Vec::new();
    let mut i: usize = 0;
    assert(out.deep_view() =~= introduced(current.deep_view().take(0), baseline.deep_view()));
    while i < current.len()
        invariant
            i <= current.len(),
            prefix@ == internal_prefix(),
            out.deep_view() == introduced(current.deep_view().take(i as int), baseline.deep_view()),
        decreases current.len() - i,
    {
        proof {
            let p = current.deep_view().take(i + 1);
            assert(p.drop_last() == current.deep_view().take(i as int));
            assert(p.last() == current@[i as int]@);
        }
        let name = &current[i];
        let text = chars_of(name.as_str());
        if !holds_name(baseline, name) && !text_starts_with(&text, &prefix) {
            let ghost before = out.deep_view();
            out.push(name.clone());
            assert(out.deep_view() =~= before.push(name@));
        }
        i += 1;
    }
    assert(current.deep_view().take(current.len() as int) == current.deep_view());
    out
}

// ---------------------------------------------------------------------------
// The session
// ---------------------------------------------------------------------------

/// What a session knows of itself.
pub struct SessionContextView {
    /// The global names that were there before the session ran anything.
    pub baseline: Seq<Seq<char>>,
    /// The names that the session has introduced.
    pub bindings: Seq<Seq<char>>,
    /// The statements that ran, oldest first.
    pub statements: Seq<Seq<char>>,
    /// The JavaScript that ran for them, oldest first.
    pub snippets: Seq<Seq<char>>,
    /// What the surroundings have to say of themselves.
    pub status: Option<Seq<char>>,
}

/// The state of one interactive session.  Every session that this module
/// hands out is well formed: both histories hold at most
/// `REPL_HISTORY_LIMIT` entries.  Only a successful execution changes the
/// histories and the bindings.
pub struct SessionContext {
    baseline: Vec<String>,
    bindings: Vec<String>,
    statements: VecDeque<String>,
    snippets: VecDeque<String>,
    status: Option<String>,
}

impl View for SessionContext {
    type V = SessionContextView;

    closed spec fn view(&self) -> SessionContextView {
        SessionContextView {
            baseline: self.baseline.deep_view(),
            bindings: self.bindings.deep_view(),
            statements: self.statements.deep_view(),
            snippets: self.snippets.deep_view(),
            status: self.status.deep_view(),
        }
    }
}

impl SessionContext {
    /// Both histories are within their limit.
    pub open spec fn wf(&self) -> bool {
        self@.statements.len() <= REPL_HISTORY_LIMIT && self@.snippets.len() <= REPL_HISTORY_LIMIT
    }

    /// A session that has run nothing yet, with the global names that
    /// were there at its start.
    pub fn new(baseline: Vec<String>) -> (session: SessionContext)
        ensures
            session.wf(),
            session@ == (SessionContextView {
                baseline: baseline.deep_view(),
                bindings: Seq::empty(),
                statements: Seq::empty(),
                snippets: Seq::empty(),
                status: None,
            }),
    {
        let session = SessionContext {
            baseline,
            bindings: Vec::new(),
            statements: VecDeque::new(),
            snippets: VecDeque::new(),
            status: None,
        };
        assert(session.bindings.deep_view() =~= Seq::<Seq<char>>::empty());
        assert(session.statements.deep_view() =~= Seq::<Seq<char>>::empty());
        assert(session.snippets.deep_view() =~= Seq::<Seq<char>>::empty());
        session
    }

    /// Takes in what the surroundings say of themselves.
    pub fn set_status(&mut self, status: Option<String>)
        ensures
            old(self).wf() ==> final(self).wf(),
            final(self)@ == (SessionContextView { status: status.deep_view(), ..old(self)@ }),
    {
        self.status = status;
    }

    /// Remembers a statement that ran, and the JavaScript that ran for it.
    pub fn record_success(&mut self, statement: String, javascript: String)
        ensures
            final(self).wf(),
            final(self)@ == (SessionContextView {
                statements: newest(old(self)@.statements.push(statement@), REPL_HISTORY_LIMIT as nat),
                snippets: newest(old(self)@.snippets.push(javascript@), REPL_HISTORY_LIMIT as nat),
                ..old(self)@
            }),
    {
        let ghost statements_before = self.statements.deep_view();
        let ghost snippets_before = self.snippets.deep_view();
        push_bounded(&mut self.statements, statement, REPL_HISTORY_LIMIT);
        push_bounded(&mut self.snippets, javascript, REPL_HISTORY_LIMIT);
        assert(self.statements.deep_view() =~= newest(
            statements_before.push(statement@),
            REPL_HISTORY_LIMIT as nat,
        ));
        assert(self.snippets.deep_view() =~= newest(
            snippets_before.push(javascript@),
            REPL_HISTORY_LIMIT as nat,
        ));
    }

    /// Takes in the global names as they are after a successful
    /// execution: the bindings are those among them that the session has
    /// introduced.
    pub fn observe_globals(&mut self, current: &Vec<String>)
        ensures
            old(self).wf() ==> final(self).wf(),
            final(self)@ == (SessionContextView {
                bindings: introduced(current.deep_view(), old(self)@.baseline),
                ..old(self)@
            }),
    {
        self.bindings = introduced_names(current, &self.baseline);
    }

    /// The context that goes with the next compile request.
    pub fn context(&self) -> (r: Option<String>)
        ensures
            r.deep_view() == scope_context(
                self@.bindings,
                self@.statements,
                self@.snippets,
                self@.status,
            ),
    {
        match &self.status {
            Some(text) => build_repl_scope_context(
                &self.bindings,
                &self.statements,
                &self.snippets,
                Some(text.as_str()),
            ),
            None => build_repl_scope_context(&self.bindings, &self.statements, &self.snippets, None),
        }
    }

    /// The names that the session has introduced.
    pub fn bindings(&self) -> (r: &Vec<String>)
        ensures
            r.deep_view() == self@.bindings,
    {
        &self.bindings
    }

    /// The statements that ran, oldest first.
    pub fn statements(&self) -> (r: &VecDeque<String>)
        ensures
            r.deep_view() == self@.statements,
    {
        &self.statements
    }

    /// The JavaScript that ran, oldest first.
    pub fn snippets(&self) -> (r: &VecDeque<String>)
        ensures
            r.deep_view() == self@.snippets,
    {
        &self.snippets
    }
}

// ---------------------------------------------------------------------------
// Asking the engine for its global names
// ---------------------------------------------------------------------------

/// The script that makes the engine list its global names as JSON.
pub const SCOPE_PROBE: &'static str = "JSON.stringify(Object.getOwnPropertyNames(globalThis))";

/// Why the global names could not be had.
#[derive(Debug, Clone, PartialEq, Eq)]
pub enum SessionError {
    /// The engine failed on the probe; the text is its report.
    ScopeProbe(String),
    /// The probe had no value.
    EmptyProbe,
    /// The value of the probe is no JSON list of strings; the text says
    /// what is wrong with it.
    ScopeJson(String),
}

impl SessionError {
    /// What this error says.
    pub open spec fn message_spec(self) -> Seq<char> {
        match self {
            SessionError::ScopeProbe(report) => "failed reading REPL global scope: "@ + report@,
            SessionError::EmptyProbe => "scope probe returned empty result"@,
            SessionError::ScopeJson(report) => "failed parsing REPL global scope JSON: "@
                + report@,
        }
    }

    /// What this error says.
    pub fn message(&self) -> (r: String)
        ensures
            r@ == self.message_spec(),
    {
        let mut out: Vec<char> = Vec::new();
        match self {
            SessionError::ScopeProbe(report) => {
                push_str(&mut out, "failed reading REPL global scope: ");
                push_str(&mut out, report.as_str());
            },
            SessionError::EmptyProbe => {
                push_str(&mut out, "scope probe returned empty result");
            },
            SessionError::ScopeJson(report) => {
                push_str(&mut out, "failed parsing REPL global scope JSON: ");
                push_str(&mut out, report.as_str());
            },
        }
        string_of(&out)
    }
}

/// `serde_json::Error`: the error of the JSON reader, of which nothing is
/// known here.
#[verifier::external_type_specification]
#[verifier::external_body]
pub struct ExJsonError(serde_json::Error);

/// The list of strings that a JSON text stands for, where it stands for
/// one.
pub uninterp spec fn json_string_list(raw: Seq<char>) -> Option<Seq<Seq<char>>>;

/// `serde_json::from_str` for a list of strings: the list that the text
/// stands for, or the reader's error where it stands for none.  Which of
/// the two, and which list, depends on the text alone.
#[verifier::external_body]
fn parse_string_list(raw: &str) -> (r: Result<Vec<String>, serde_json::Error>)
    ensures
        match r {
            Ok(list) => json_string_list(raw@) == Some(list.deep_view()),
            Err(_) => json_string_list(raw@) is None,
        },
{
    serde_json::from_str::<Vec<String>>(raw)
}

/// `Display` of `serde_json::Error`: the reader's own words for what is
/// wrong, of which nothing is claimed.
#[verifier::external_body]
fn json_error_text(error: &serde_json::Error) -> String {
    error.to_string()
}

/// The global names that the value of the probe lists.
pub fn global_names_of(value: Option<String>) -> (r: Result<Vec<String>, SessionError>)
    ensures
        match r {
            Ok(names) => value matches Some(raw) && json_string_list(raw@) == Some(
                names.deep_view(),
            ),
            Err(SessionError::EmptyProbe) => value is None,
            Err(SessionError::ScopeJson(_)) => value matches Some(raw) && json_string_list(raw@)
                is None,
            Err(SessionError::ScopeProbe(_)) => false,
        },
{
    let raw = match value {
        Some(raw) => raw,
        None => {
            return Err(SessionError::EmptyProbe);
        },
    };
    match parse_string_list(raw.as_str()) {
        Ok(names) => Ok(names),
        Err(e) => Err(SessionError::ScopeJson(json_error_text(&e))),
    }
}

/// The probe as text.
pub open spec fn scope_probe() -> Seq<char> {
    "JSON.stringify(Object.getOwnPropertyNames(globalThis))"@
}

/// Whether `r` is what is made of the engine's answer to the probe: the
/// names that the value of the probe lists; the engine's failure, with
/// its report; or the reason why the value lists no names.
pub open spec fn names_made_of(
    answer: Result<EvalOutput, EngineError>,
    r: Result<Vec<String>, SessionError>,
) -> bool {
    match answer {
        Err(e) => r matches Err(SessionError::ScopeProbe(report)) && report@ == e.message@,
        Ok(out) => match out.value {
            None => r matches Err(SessionError::EmptyProbe),
            Some(raw) => match json_string_list(raw@) {
                Some(names) => r matches Ok(list) && list.deep_view() == names,
                None => r matches Err(SessionError::ScopeJson(_)),
            },
        },
    }
}

/// Asks the engine for its global names: the engine is given the probe
/// under the name `<repl-scope>`, and the result is what `names_made_of`
/// says of its answer.
pub fn read_global_names<E: JsEngine + ?Sized>(engine: &mut E) -> (r: Result<
    Vec<String>,
    SessionError,
>)
    ensures
        exists|answer: Result<EvalOutput, EngineError>|
            old(engine).evaluates(scope_probe(), "<repl-scope>"@, answer) && #[trigger]
            names_made_of(answer, r),
{
    let answer = engine.eval_script(SCOPE_PROBE, "<repl-scope>");
    let ghost given = answer;
    let r = match answer {
        Ok(out) => global_names_of(out.value),
        Err(e) => Err(SessionError::ScopeProbe(e.message)),
    };
    assert(names_made_of(given, r));
    r
}

// ---------------------------------------------------------------------------
// The compile request of a statement
// ---------------------------------------------------------------------------

/// The language of a session: the one that was set, or pseudocode.
pub fn repl_language(lang: Option<&str>) -> (r: String)
    ensures
        r@ == match lang {
            Some(l) => l@,
            None => "pseudocode"@,
        },
{
    match lang {
        Some(l) => l.to_string(),
        None => "pseudocode".to_string(),
    }
}

/// The request that compiles a statement of a session: always through a
/// provider, in the session's language, with the session's context.
pub open spec fn repl_request_spec(
    statement: Seq<char>,
    repl_lang: Seq<char>,
    scope_context: Option<Seq<char>>,
    provider_selection: ProviderSelection,
    model_override: Option<Seq<char>>,
    no_cache: bool,
) -> CompileRequestView {
    CompileRequestView {
        source_text: statement,
        source_id: "<repl>"@,
        kind_hint: Some(SourceKindView::Unknown(repl_lang)),
        language_hint: Some(repl_lang),
        scope_context,
        force_llm: true,
        provider_selection,
        model_override,
        no_cache,
    }
}

/// Builds the request that compiles a statement of a session.
pub fn repl_request(
    statement: &str,
    repl_lang: &str,
    scope_context: Option<String>,
    provider_selection: ProviderSelection,
    model_override: Option<String>,
    no_cache: bool,
) -> (req: CompileRequest)
    ensures
        req.deep_view() == repl_request_spec(
            statement@,
            repl_lang@,
            scope_context.deep_view(),
            provider_selection,
            model_override.deep_view(),
            no_cache,
        ),
{
    CompileRequest {
        source_text: statement.to_string(),
        source_id: "<repl>".to_string(),
        kind_hint: Some(SourceKind::Unknown(repl_lang.to_string())),
        language_hint: Some(repl_lang.to_string()),
        scope_context,
        force_llm: true,
        provider_selection,
        model_override,
        no_cache,
    }
}

} // verus!
