use sleepy_cat::platform::macos::ax_client::{AxTraversalBudget, AxTraversalLimits};
use sleepy_cat::platform::macos::composer_resolver::{
    candidate_allowed, candidate_has_search_semantics, ComposerCandidate,
};
use sleepy_cat::platform::macos::ax_diagnostics::{
    descendant_process_diagnostics, is_diagnostic_candidate_role, parse_ps_command_rows,
    stable_hash, walks_children, AxProcessDiagnostic,
};

fn diag(pid: u32, parent: u32, command: &str) -> AxProcessDiagnostic {
    AxProcessDiagnostic {
        pid,
        parent_pid: Some(parent),
        command_hash: if command.is_empty() {
            None
        } else {
            Some(stable_hash(command))
        },
    }
}

#[test]
fn ps_command_rows_join_the_command_words_with_single_spaces() {
    let rows = parse_ps_command_rows(
        "  100     1 /Applications/WeChat.app/Contents/MacOS/WeChat\n  200   100   helper   --type=gpu\tx  \n  300 200\n abc 100 bad\n",
    );
    let rows: Vec<(u32, u32, String)> = rows
        .into_iter()
        .map(|(pid, ppid, command)| (pid, ppid, command.into_iter().collect()))
        .collect();
    assert_eq!(
        rows,
        vec![
            (100, 1, "/Applications/WeChat.app/Contents/MacOS/WeChat".to_string()),
            (200, 100, "helper --type=gpu x".to_string()),
            (300, 200, String::new()),
        ]
    );
}

#[test]
fn descendant_diagnostics_follow_the_process_tree_in_table_order() {
    let output = "  100     1 WeChat\n  200   100 helper --type=gpu\n  300   200\n  400     1 other app\n  500   300 child   of 300\n";
    assert_eq!(
        descendant_process_diagnostics(100, output),
        vec![
            diag(200, 100, "helper --type=gpu"),
            diag(300, 200, ""),
            diag(500, 300, "child of 300"),
        ]
    );
}

#[test]
fn descendant_diagnostics_take_another_pass_for_children_listed_before_parents() {
    let output = "600 700 late child\n700 100 parent\n800 600 grandchild\n";
    assert_eq!(
        descendant_process_diagnostics(100, output),
        vec![
            diag(700, 100, "parent"),
            diag(600, 700, "late child"),
            diag(800, 600, "grandchild"),
        ]
    );
}

#[test]
fn descendant_diagnostics_are_empty_without_children() {
    assert_eq!(descendant_process_diagnostics(100, ""), Vec::new());
    assert_eq!(
        descendant_process_diagnostics(100, "100 1 self\n200 1 sibling\n"),
        Vec::new()
    );
}

#[test]
fn traversal_budget_stops_at_node_limit() {
    let mut budget = AxTraversalBudget::new(AxTraversalLimits {
        max_nodes: 2,
        max_depth: 10,
        max_elapsed_ms: 1000,
        per_element_timeout_ms: 100,
    });

    assert!(budget.try_visit(1));
    assert!(budget.try_visit(2));
    assert!(!budget.try_visit(3));
    assert_eq!(budget.stats().visited_nodes, 2);
    assert!(budget.stats().stopped_by_budget);
}

#[test]
fn traversal_budget_stops_at_depth_limit() {
    let mut budget = AxTraversalBudget::new(AxTraversalLimits {
        max_nodes: 10,
        max_depth: 2,
        max_elapsed_ms: 1000,
        per_element_timeout_ms: 100,
    });

    assert!(budget.try_visit(2));
    assert!(!budget.try_visit(3));
    assert_eq!(budget.stats().deepest_level, 2);
}

#[test]
fn traversal_budget_stops_at_elapsed_limit() {
    let mut budget = AxTraversalBudget::started_at(
        AxTraversalLimits {
            max_nodes: 10,
            max_depth: 10,
            max_elapsed_ms: 1,
            per_element_timeout_ms: 100,
        },
        std::time::Instant::now() - std::time::Duration::from_millis(2),
    );

    assert!(!budget.try_visit(1));
    assert_eq!(budget.stats().visited_nodes, 0);
    assert!(budget.stats().stopped_by_budget);
}

#[test]
fn diagnostic_timeout_keeps_attribute_batches_inside_total_budget() {
    let limits = AxTraversalLimits::diagnostic();

    assert!(limits.per_element_timeout_ms <= 25);
    assert!(limits.max_elapsed_ms <= 250);
}

#[test]
fn traversal_budget_decides_from_the_elapsed_time_it_is_given() {
    let limits = AxTraversalLimits {
        max_nodes: 3,
        max_depth: 5,
        max_elapsed_ms: 100,
        per_element_timeout_ms: 20,
    };
    let mut budget = AxTraversalBudget::new(limits);
    assert!(budget.visit_after(4, 99));
    assert!(budget.visit_after(1, 0));
    assert_eq!(budget.stats().visited_nodes, 2);
    assert_eq!(budget.stats().deepest_level, 4);
    assert!(!budget.stats().stopped_by_budget);
    assert!(!budget.visit_after(1, 100));
    assert_eq!(budget.stats().visited_nodes, 2);
    assert!(budget.stats().stopped_by_budget);

    let mut fresh = AxTraversalBudget::new(limits);
    assert!(fresh.time_remaining_after(99));
    assert!(!fresh.stats().stopped_by_budget);
    assert!(!fresh.time_remaining_after(100));
    assert!(fresh.stats().stopped_by_budget);
    assert!(fresh.has_time_remaining());
}

fn composer(pid: u32, role: &str) -> ComposerCandidate<(f64, f64, f64, f64)> {
    ComposerCandidate {
        owner_pid: pid,
        role: role.to_string(),
        subrole: None,
        identifier: None,
        title: None,
        description: None,
        placeholder: None,
        help: None,
        frame: (180.0, 650.0, 640.0, 100.0),
        enabled: true,
        visible: true,
        focused: false,
        window_matches: true,
        editable: true,
        secure: false,
        depth: 4,
    }
}

#[test]
fn search_semantics_are_read_from_any_lowercased_text() {
    let plain = composer(42, "AXTextArea");
    assert!(!candidate_has_search_semantics(&plain));

    let mut titled = composer(42, "AXTextArea");
    titled.title = Some("Search Contacts".to_string());
    assert!(candidate_has_search_semantics(&titled));

    let mut helped = composer(42, "AXTextArea");
    helped.help = Some("FILTER messages".to_string());
    assert!(candidate_has_search_semantics(&helped));

    let mut chinese = composer(42, "AXTextField");
    chinese.placeholder = Some("搜索".to_string());
    assert!(candidate_has_search_semantics(&chinese));

    let mut contacts = composer(42, "AXTextField");
    contacts.identifier = Some("联系人列表".to_string());
    assert!(candidate_has_search_semantics(&contacts));

    let mut message = composer(42, "AXTextArea");
    message.description = Some("Message".to_string());
    message.placeholder = Some("Type a reply".to_string());
    assert!(!candidate_has_search_semantics(&message));
}

#[test]
fn candidate_allowed_requires_every_trait_of_a_composer() {
    let trusted = vec![42, 43];
    let base = composer(42, "AXTextArea");
    assert!(candidate_allowed(&base, &trusted, true));
    assert!(!candidate_allowed(&base, &trusted, false));
    assert!(!candidate_allowed(&composer(7, "AXTextArea"), &trusted, true));
    assert!(!candidate_allowed(&composer(43, "AXWebArea"), &trusted, true));

    let mut search = composer(42, "AXTextField");
    search.subrole = Some("AXSearchField".to_string());
    assert!(!candidate_allowed(&search, &trusted, true));

    let mut secure_field = composer(42, "AXTextField");
    secure_field.subrole = Some("AXSecureTextField".to_string());
    assert!(!candidate_allowed(&secure_field, &trusted, true));

    let mut secure = composer(42, "AXTextArea");
    secure.secure = true;
    assert!(!candidate_allowed(&secure, &trusted, true));

    let mut hidden = composer(42, "AXTextArea");
    hidden.visible = false;
    assert!(!candidate_allowed(&hidden, &trusted, true));

    let mut other_window = composer(42, "AXTextArea");
    other_window.window_matches = false;
    assert!(!candidate_allowed(&other_window, &trusted, true));

    let mut labelled = composer(42, "AXTextArea");
    labelled.title = Some("Find in chat".to_string());
    assert!(!candidate_allowed(&labelled, &trusted, true));
}

#[test]
fn diagnostics_report_only_input_roles() {
    for role in ["AXTextArea", "AXTextField", "AXComboBox", "AXWebArea"] {
        assert!(is_diagnostic_candidate_role(Some(role)));
    }
    assert!(!is_diagnostic_candidate_role(Some("AXButton")));
    assert!(!is_diagnostic_candidate_role(Some("AXSearchFieldX")));
    assert!(!is_diagnostic_candidate_role(None));
}

#[test]
fn diagnostics_walk_no_deeper_than_the_depth_limit() {
    let limits = AxTraversalLimits {
        max_nodes: 10,
        max_depth: 3,
        max_elapsed_ms: 1000,
        per_element_timeout_ms: 100,
    };
    assert!(walks_children(&limits, 2));
    assert!(!walks_children(&limits, 3));
    assert!(!walks_children(&limits, 4));
}
