use chat_agent::retrieval::{join_lines, search, GetInfoTool, IndexedRow, DEFAULT_RETRIEVAL_LIMIT};

fn row(organization_id: i32, distance: u64, data: &str) -> IndexedRow {
    IndexedRow { organization_id, distance, data: data.to_string() }
}

fn datas(rows: &[IndexedRow]) -> Vec<String> {
    rows.iter().map(|r| r.data.clone()).collect()
}

#[test]
fn two_rows_nearer_first_joined_by_newline() {
    // Organization 5, limit 3, two matching rows at distances 0.1 and 0.4
    // (scaled to tenths): both come back, nearer one first.
    let rows = vec![row(5, 4, "far snippet"), row(5, 1, "near snippet")];
    let ranked = search(&rows, 5, 3);
    assert_eq!(datas(&ranked), vec!["near snippet", "far snippet"]);
    let joined = join_lines(&datas(&ranked));
    assert_eq!(joined, "near snippet\nfar snippet");
}

#[test]
fn zero_matching_rows_give_empty_output() {
    let rows = vec![row(7, 1, "other org")];
    let tool = GetInfoTool::new(5);
    assert_eq!(tool.call(&rows), "");
    let empty: Vec<IndexedRow> = Vec::new();
    assert_eq!(tool.call(&empty), "");
}

#[test]
fn search_scopes_to_the_organization() {
    let rows = vec![row(1, 1, "a"), row(2, 2, "b"), row(1, 3, "c"), row(3, 4, "d")];
    let ranked = search(&rows, 1, 10);
    assert_eq!(datas(&ranked), vec!["a", "c"]);
    assert!(ranked.iter().all(|r| r.organization_id == 1));
}

#[test]
fn search_cuts_at_the_limit_with_the_nearest() {
    let rows = vec![
        row(5, 30, "third"),
        row(5, 10, "first"),
        row(5, 40, "fourth"),
        row(5, 20, "second"),
    ];
    let ranked = search(&rows, 5, 2);
    assert_eq!(datas(&ranked), vec!["first", "second"]);
}

#[test]
fn search_orders_by_non_decreasing_distance() {
    let rows = vec![row(5, 9, "c"), row(5, 2, "a"), row(5, 9, "d"), row(5, 5, "b")];
    let ranked = search(&rows, 5, 10);
    assert_eq!(ranked.len(), 4);
    for pair in ranked.windows(2) {
        assert!(pair[0].distance <= pair[1].distance);
    }
    assert_eq!(ranked[0].data, "a");
    assert_eq!(ranked[1].data, "b");
}

#[test]
fn search_with_limit_zero_returns_nothing() {
    let rows = vec![row(5, 1, "a")];
    assert_eq!(search(&rows, 5, 0).len(), 0);
}

#[test]
fn equal_distances_keep_both_rows() {
    let rows = vec![row(5, 7, "twin one"), row(5, 7, "twin two"), row(5, 3, "nearest")];
    let ranked = search(&rows, 5, 10);
    assert_eq!(ranked.len(), 3);
    assert_eq!(ranked[0].data, "nearest");
    let twins: Vec<String> = datas(&ranked[1..]);
    assert!(twins.contains(&"twin one".to_string()));
    assert!(twins.contains(&"twin two".to_string()));
}

#[test]
fn join_lines_edge_cases() {
    let none: Vec<String> = Vec::new();
    assert_eq!(join_lines(&none), "");
    assert_eq!(join_lines(&vec!["only".to_string()]), "only");
    assert_eq!(
        join_lines(&vec!["a".to_string(), "b".to_string(), "c".to_string()]),
        "a\nb\nc"
    );
}

#[test]
fn tool_carries_its_name_and_description() {
    let tool = GetInfoTool::new(9);
    assert_eq!(tool.name(), "Get_Info");
    assert_eq!(
        tool.description(),
        "This tool can get information from a Knolage database, the input is a query"
    );
    assert_eq!(tool.organisation_id, 9);
    assert_eq!(tool.limit, DEFAULT_RETRIEVAL_LIMIT);
    let d = tool.descriptor();
    assert_eq!(d.name, "Get_Info");
    assert_eq!(d.description, tool.description());
}

#[test]
fn tool_call_ranks_scopes_and_joins() {
    let rows = vec![
        row(5, 4, "far"),
        row(6, 1, "foreign"),
        row(5, 1, "near"),
        row(5, 2, "middle"),
    ];
    let tool = GetInfoTool::new(5);
    assert_eq!(tool.call(&rows), "near\nmiddle\nfar");
}

#[test]
fn tool_call_returns_at_most_the_limit() {
    let mut rows = Vec::new();
    for d in 0..25u64 {
        rows.push(row(5, d, &format!("s{}", d)));
    }
    let tool = GetInfoTool::new(5);
    let out = tool.call(&rows);
    assert_eq!(out.split('\n').count(), DEFAULT_RETRIEVAL_LIMIT);
    assert!(out.starts_with("s0\ns1\n"));
}
