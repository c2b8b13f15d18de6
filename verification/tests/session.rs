use klumo::session::{
    build_repl_scope_context, insert_name, introduced_names, joined_recent_entries, push_bounded,
    sanitize_repl_javascript, scope_context_text, sort_names, SessionContext, REPL_HISTORY_LIMIT,
};
use std::collections::VecDeque;

fn names(items: &[&str]) -> Vec<String> {
    items.iter().map(|s| s.to_string()).collect()
}

#[test]
fn main_repl_scope_context_includes_bindings_and_history() {
    let mut bindings = Vec::new();
    bindings.push("hello".to_string());
    bindings.push("count".to_string());

    let statements = VecDeque::from(vec![
        "store 2 in hello variable".to_string(),
        "print hello variable".to_string(),
    ]);
    let js = VecDeque::from(vec![
        "const hello = 2;".to_string(),
        "console.log(hello);".to_string(),
    ]);

    let context = build_repl_scope_context(&bindings, &statements, &js, None).expect("context");
    assert!(context.contains("Bindings currently defined"));
    assert!(context.contains("Previously run REPL statements"));
    assert!(context.contains("Previously generated JavaScript snippets"));
}

#[test]
fn main_push_bounded_trims_old_entries() {
    let mut history = VecDeque::new();
    for i in 0..=(REPL_HISTORY_LIMIT + 2) {
        push_bounded(&mut history, format!("entry-{i}"), REPL_HISTORY_LIMIT);
    }
    assert_eq!(history.len(), REPL_HISTORY_LIMIT);
    assert_eq!(history.front().expect("front"), "entry-3");
}

#[test]
fn a_history_of_n_keeps_the_newest_n_of_n_plus_five() {
    for cap in [1usize, 3, 20] {
        let mut history = VecDeque::new();
        for i in 1..=(cap + 5) {
            push_bounded(&mut history, format!("#{i}"), cap);
        }
        assert_eq!(history.len(), cap);
        assert_eq!(history.front().expect("front"), "#6");
        assert_eq!(history.back().expect("back"), &format!("#{}", cap + 5));
    }
    let mut none = VecDeque::new();
    push_bounded(&mut none, "x".to_string(), 0);
    assert!(none.is_empty());
    let mut long: VecDeque<String> = names(&["a", "b", "c", "d"]).into();
    push_bounded(&mut long, "e".to_string(), 2);
    assert_eq!(long, VecDeque::from(names(&["d", "e"])));
}

#[test]
fn the_context_is_exact() {
    let bindings = names(&["hello", "count", "hello"]);
    let statements = VecDeque::from(names(&["store 2 in hello variable", "print hello variable"]));
    let js = VecDeque::from(names(&["const hello = 2;", "console.log(hello);"]));
    let context =
        build_repl_scope_context(&bindings, &statements, &js, Some("Web daemon is not running."));
    assert_eq!(
        context.as_deref(),
        Some(
            "Bindings currently defined in this REPL session: count, hello. Avoid redeclaring them with const/let/class.\n\n\
Previously run REPL statements (oldest to newest):\n1. store 2 in hello variable\n2. print hello variable\n\n\
Previously generated JavaScript snippets (oldest to newest):\n1. const hello = 2;\n2. console.log(hello);\n\n\
Web daemon is not running."
        )
    );
}

#[test]
fn empty_sections_are_left_out() {
    let none: Vec<String> = Vec::new();
    let empty = VecDeque::new();
    assert_eq!(build_repl_scope_context(&none, &empty, &empty, None), None);
    assert_eq!(build_repl_scope_context(&none, &empty, &empty, Some("")), None);
    assert_eq!(
        build_repl_scope_context(&none, &empty, &empty, Some("status")).as_deref(),
        Some("status")
    );
    let one = VecDeque::from(names(&["let a = 1"]));
    assert_eq!(
        build_repl_scope_context(&none, &empty, &one, None).as_deref(),
        Some("Previously generated JavaScript snippets (oldest to newest):\n1. let a = 1")
    );
    assert_eq!(scope_context_text(&none), None);
    assert_eq!(joined_recent_entries(&empty), None);
}

#[test]
fn entries_are_numbered_from_one() {
    let mut history = VecDeque::new();
    for i in 0..12 {
        history.push_back(format!("s{i}"));
    }
    let text = joined_recent_entries(&history).expect("text");
    let lines: Vec<&str> = text.lines().collect();
    assert_eq!(lines.len(), 12);
    assert_eq!(lines[0], "1. s0");
    assert_eq!(lines[9], "10. s9");
    assert_eq!(lines[11], "12. s11");
}

#[test]
fn names_are_listed_in_ascending_order_each_once() {
    assert_eq!(
        sort_names(&names(&["b", "a", "ab", "B", "a", "", "é", "z", "ab"])),
        names(&["", "B", "a", "ab", "b", "z", "é"])
    );
    let mut sorted = names(&["a", "c"]);
    insert_name(&mut sorted, "b".to_string());
    insert_name(&mut sorted, "c".to_string());
    insert_name(&mut sorted, "".to_string());
    assert_eq!(sorted, names(&["", "a", "b", "c"]));
    // The order is that of `str`.
    let mut expected = names(&["x1", "x", "X", "_y", "$", "ö", "o", "x10", "x2"]);
    let got = sort_names(&expected);
    expected.sort();
    assert_eq!(got, expected);
}

#[test]
fn module_syntax_is_removed_line_by_line() {
    assert_eq!(
        sanitize_repl_javascript(
            "import fs from 'fs';\n  import x from 'y';\nexport default function f() {}\n  export const a = 1;\nconst b = 2;\r\n\n  importantCall();\n"
        ),
        "function f() {}\nconst a = 1;\nconst b = 2;\n\n  importantCall();"
    );
    assert_eq!(sanitize_repl_javascript("import a from 'a';\n"), "");
    assert_eq!(sanitize_repl_javascript(""), "");
    assert_eq!(sanitize_repl_javascript("  let a = 1;  \n\n"), "  let a = 1;");
    assert_eq!(sanitize_repl_javascript("export default 42"), "42");
    assert_eq!(sanitize_repl_javascript("exported = 1\nexport"), "exported = 1\nexport");
    assert_eq!(sanitize_repl_javascript("a\rb\r"), "a\rb");
}

#[test]
fn bindings_are_what_is_new_and_not_the_runtimes_own() {
    let baseline = names(&["globalThis", "console", "Object"]);
    let current = names(&["Object", "hello", "__klumo_web_status", "console", "count", "klumo"]);
    assert_eq!(introduced_names(&current, &baseline), names(&["hello", "count", "klumo"]));
}

#[test]
fn a_session_changes_only_on_success() {
    let mut session = SessionContext::new(names(&["console"]));
    assert_eq!(session.context(), None);
    session.set_status(Some("Web daemon is not running.".to_string()));
    assert_eq!(session.context().as_deref(), Some("Web daemon is not running."));

    session.record_success("store 2 in hello".to_string(), "const hello = 2;".to_string());
    session.observe_globals(&names(&["console", "hello", "__klumo_x"]));
    assert_eq!(session.bindings(), &names(&["hello"]));
    assert_eq!(session.statements().len(), 1);
    assert_eq!(
        session.context().as_deref(),
        Some(
            "Bindings currently defined in this REPL session: hello. Avoid redeclaring them with const/let/class.\n\n\
Previously run REPL statements (oldest to newest):\n1. store 2 in hello\n\n\
Previously generated JavaScript snippets (oldest to newest):\n1. const hello = 2;\n\n\
Web daemon is not running."
        )
    );

    for i in 0..(REPL_HISTORY_LIMIT + 5) {
        session.record_success(format!("statement {i}"), format!("js {i}"));
    }
    assert_eq!(session.statements().len(), REPL_HISTORY_LIMIT);
    assert_eq!(session.snippets().len(), REPL_HISTORY_LIMIT);
    assert_eq!(session.statements().front().expect("front"), "statement 5");
    assert_eq!(session.snippets().front().expect("front"), "js 5");
}

#[test]
fn repl_scope_context_includes_bindings_and_history() {
    let mut bindings = Vec::new();
    bindings.push("hello".to_string());
    bindings.push("count".to_string());

    let statements = VecDeque::from(vec![
        "store 2 in hello variable".to_string(),
        "print hello variable".to_string(),
    ]);
    let js = VecDeque::from(vec![
        "const hello = 2;".to_string(),
        "console.log(hello);".to_string(),
    ]);

    let context = build_repl_scope_context(&bindings, &statements, &js, None).expect("context");
    assert!(context.contains("Bindings currently defined"));
    assert!(context.contains("Previously run REPL statements"));
    assert!(context.contains("Previously generated JavaScript snippets"));
}

#[test]
fn push_bounded_trims_old_entries() {
    let mut history = VecDeque::new();
    for i in 0..=(REPL_HISTORY_LIMIT + 2) {
        push_bounded(&mut history, format!("entry-{i}"), REPL_HISTORY_LIMIT);
    }
    assert_eq!(history.len(), REPL_HISTORY_LIMIT);
    assert_eq!(history.front().expect("front"), "entry-3");
}
