use simple_server_utility::cmd::{CmdList, NodeSortOpt};
use simple_server_utility::listing::{
    arrange, json_listing, lines, list, node_le, node_line, record, records, reverse_nodes, rows,
    sort_nodes, status_name, status_rank, ListError, Listing, Node, NodeTable,
};
use simple_server_utility::model::NodeStatus;
use simple_server_utility::text::{decimal, str_le};

fn node(id: i64, name: &str, created: &str, cores: i32, memory_rank: i64, status: NodeStatus) -> Node {
    Node {
        id,
        name: name.to_string(),
        created: created.to_string(),
        cores,
        memory_rank,
        status,
        shape: format!("cx{}", cores),
    }
}

fn fleet() -> Vec<Node> {
    vec![
        node(3, "delta", "2024-03-01T00:00:00+00:00", 4, 8, NodeStatus::Running),
        node(1, "alpha", "2024-01-01T00:00:00+00:00", 2, 4, NodeStatus::Off),
        node(4, "bravo", "2023-12-31T00:00:00+00:00", 4, 16, NodeStatus::Running),
        node(2, "charlie", "2024-02-01T00:00:00+00:00", 2, 2, NodeStatus::Starting),
    ]
}

fn ids(nodes: &[Node]) -> Vec<i64> {
    nodes.iter().map(|n| n.id).collect()
}

fn options(full: bool, json: bool, sort: NodeSortOpt, reverse: bool) -> CmdList {
    CmdList { full, json, sort, reverse }
}

#[test]
fn decimal_rendering() {
    assert_eq!(decimal(0), "0");
    assert_eq!(decimal(7), "7");
    assert_eq!(decimal(42), "42");
    assert_eq!(decimal(1000), "1000");
    assert_eq!(decimal(-1), "-1");
    assert_eq!(decimal(-120), "-120");
    assert_eq!(decimal(i64::MAX), "9223372036854775807");
    assert_eq!(decimal(i64::MIN), "-9223372036854775808");
}

#[test]
fn rendered_id_is_read_back() {
    for id in [0i64, 1, 9, 10, 99, 100, 12345, i64::MAX] {
        assert_eq!(
            simple_server_utility::resolver::parse_node_id(&decimal(id)),
            Some(id)
        );
    }
}

#[test]
fn order_of_strings() {
    assert!(str_le("", ""));
    assert!(str_le("", "a"));
    assert!(!str_le("a", ""));
    assert!(str_le("a", "a"));
    assert!(str_le("a", "b"));
    assert!(!str_le("b", "a"));
    assert!(str_le("ab", "abc"));
    assert!(!str_le("abc", "ab"));
    assert!(str_le("Z", "a"));
    assert!(str_le("abc", "abd"));
    assert!(str_le("z", "é"));
    assert!(!str_le("é", "z"));
    for (a, b) in [("alpha", "bravo"), ("10", "9"), ("é", "z"), ("node-2", "node-10"), ("", "x")] {
        assert_eq!(str_le(a, b), a <= b);
        assert_eq!(str_le(b, a), b <= a);
    }
}

#[test]
fn order_of_statuses() {
    let order = [
        NodeStatus::Deleting,
        NodeStatus::Initializing,
        NodeStatus::Migrating,
        NodeStatus::Off,
        NodeStatus::Rebuilding,
        NodeStatus::Running,
        NodeStatus::Starting,
        NodeStatus::Stopping,
        NodeStatus::Unknown,
    ];
    for (rank, status) in order.iter().enumerate() {
        assert_eq!(status_rank(*status) as usize, rank);
    }
}

#[test]
fn sort_by_each_quality() {
    assert_eq!(ids(&sort_nodes(fleet(), NodeSortOpt::Alphabetical)), vec![1, 4, 2, 3]);
    assert_eq!(ids(&sort_nodes(fleet(), NodeSortOpt::Created)), vec![4, 1, 2, 3]);
    assert_eq!(ids(&sort_nodes(fleet(), NodeSortOpt::Cores)), vec![1, 2, 3, 4]);
    assert_eq!(ids(&sort_nodes(fleet(), NodeSortOpt::Memory)), vec![2, 1, 3, 4]);
    assert_eq!(ids(&sort_nodes(fleet(), NodeSortOpt::Status)), vec![1, 3, 4, 2]);
}

#[test]
fn sort_agrees_with_a_stable_sort() {
    for sort in [
        NodeSortOpt::Alphabetical,
        NodeSortOpt::Created,
        NodeSortOpt::Cores,
        NodeSortOpt::Memory,
        NodeSortOpt::Status,
    ] {
        let mut expected = fleet();
        expected.extend(fleet().into_iter().map(|mut n| {
            n.id += 10;
            n
        }));
        let input = expected.clone();
        match sort {
            NodeSortOpt::Alphabetical => expected.sort_by(|a, b| a.name.cmp(&b.name)),
            NodeSortOpt::Created => expected.sort_by(|a, b| a.created.cmp(&b.created)),
            NodeSortOpt::Cores => expected.sort_by(|a, b| a.cores.cmp(&b.cores)),
            NodeSortOpt::Memory => expected.sort_by(|a, b| a.memory_rank.cmp(&b.memory_rank)),
            NodeSortOpt::Status => {
                expected.sort_by(|a, b| status_rank(a.status).cmp(&status_rank(b.status)))
            }
        }
        assert_eq!(sort_nodes(input.clone(), sort), expected);
        expected.reverse();
        assert_eq!(arrange(input, sort, true), expected);
    }
}

#[test]
fn ties_keep_their_order() {
    let sorted = sort_nodes(fleet(), NodeSortOpt::Cores);
    assert_eq!(ids(&sorted), vec![1, 2, 3, 4]);
    let a = node(1, "a", "", 2, 0, NodeStatus::Off);
    let b = node(2, "b", "", 2, 0, NodeStatus::Off);
    assert!(node_le(NodeSortOpt::Cores, &a, &b));
    assert!(node_le(NodeSortOpt::Cores, &b, &a));
    assert!(node_le(NodeSortOpt::Alphabetical, &a, &b));
    assert!(!node_le(NodeSortOpt::Alphabetical, &b, &a));
}

#[test]
fn reverse_turns_the_whole_list_round() {
    assert_eq!(ids(&reverse_nodes(fleet())), vec![2, 4, 1, 3]);
    assert_eq!(ids(&arrange(fleet(), NodeSortOpt::Cores, true)), vec![4, 3, 2, 1]);
    assert_eq!(ids(&arrange(fleet(), NodeSortOpt::Cores, false)), vec![1, 2, 3, 4]);
    assert!(arrange(vec![], NodeSortOpt::Cores, true).is_empty());
}

#[test]
fn status_names() {
    assert_eq!(status_name(NodeStatus::Deleting), "Deleting");
    assert_eq!(status_name(NodeStatus::Initializing), "Initializing");
    assert_eq!(status_name(NodeStatus::Migrating), "Migrating");
    assert_eq!(status_name(NodeStatus::Off), "Off");
    assert_eq!(status_name(NodeStatus::Rebuilding), "Rebuilding");
    assert_eq!(status_name(NodeStatus::Running), "Running");
    assert_eq!(status_name(NodeStatus::Starting), "Starting");
    assert_eq!(status_name(NodeStatus::Stopping), "Stopping");
    assert_eq!(status_name(NodeStatus::Unknown), "Unknown");
}

#[test]
fn row_of_a_node() {
    let row = NodeTable::from(node(3, "delta", "x", 4, 8, NodeStatus::Running));
    assert_eq!(
        row,
        NodeTable {
            name: "delta".to_string(),
            id: 3,
            status: "Running".to_string(),
            shape: "cx4".to_string()
        }
    );
    let table = rows(fleet());
    let names: Vec<&str> = table.iter().map(|r| r.name.as_str()).collect();
    assert_eq!(names, vec!["delta", "alpha", "bravo", "charlie"]);
}

#[test]
fn line_of_a_node() {
    assert_eq!(node_line(&node(3, "delta", "x", 4, 8, NodeStatus::Running)), "3: delta");
    assert_eq!(lines(&fleet()), vec!["3: delta", "1: alpha", "4: bravo", "2: charlie"]);
}

#[test]
fn record_of_a_node() {
    let n = node(3, "delta", "x", 4, 8, NodeStatus::Off);
    let mut brief = serde_json::Map::new();
    brief.insert("id".to_string(), serde_json::Value::Number(serde_json::Number::from(3i64)));
    brief.insert("name".to_string(), serde_json::Value::String("delta".to_string()));
    assert_eq!(record(&n, false), brief);
    let mut full = brief.clone();
    full.insert("status".to_string(), serde_json::Value::String("Off".to_string()));
    full.insert("shape".to_string(), serde_json::Value::String("cx4".to_string()));
    assert_eq!(record(&n, true), full);
    let object = record(&n, true);
    let keys: Vec<&str> = object.keys().map(|k| k.as_str()).collect();
    assert_eq!(keys.len(), 4);
    for key in ["id", "name", "status", "shape"] {
        assert!(keys.contains(&key));
    }
    assert_eq!(record(&n, false).len(), 2);
}

#[test]
fn records_follow_the_nodes() {
    let all = records(&fleet(), false);
    assert_eq!(all.len(), 4);
    let found: Vec<i64> = all.iter().map(|o| o["id"].as_i64().unwrap()).collect();
    assert_eq!(found, vec![3, 1, 4, 2]);
    assert_eq!(all[1]["name"], "alpha");
    assert!(records(&vec![], true).is_empty());
}

#[test]
fn listing_in_json_is_always_made() {
    for full in [false, true] {
        for reverse in [false, true] {
            for sort in [
                NodeSortOpt::Alphabetical,
                NodeSortOpt::Created,
                NodeSortOpt::Cores,
                NodeSortOpt::Memory,
                NodeSortOpt::Status,
            ] {
                let listing = list(fleet(), &options(full, true, sort, reverse));
                let text = match listing {
                    Ok(Listing::Json(text)) => text,
                    other => panic!("not JSON: {:?}", other),
                };
                let parsed: serde_json::Value = serde_json::from_str(&text).unwrap();
                let objects = parsed.as_array().unwrap();
                let found: Vec<i64> =
                    objects.iter().map(|o| o["id"].as_i64().unwrap()).collect();
                assert_eq!(found, ids(&arrange(fleet(), sort, reverse)));
                for object in objects {
                    let width = if full { 4 } else { 2 };
                    assert_eq!(object.as_object().unwrap().len(), width);
                }
            }
        }
    }
}

#[test]
fn node_with_awkward_name_in_json() {
    let nodes = vec![node(-7, "tab\there \"and\" \u{e9}\n", "2024", 1, 1, NodeStatus::Unknown)];
    let listing = list(nodes, &options(true, true, NodeSortOpt::Created, false));
    let text = match listing {
        Ok(Listing::Json(text)) => text,
        other => panic!("not JSON: {:?}", other),
    };
    let parsed: serde_json::Value = serde_json::from_str(&text).unwrap();
    assert_eq!(parsed[0]["id"], -7);
    assert_eq!(parsed[0]["name"], "tab\there \"and\" \u{e9}\n");
    assert_eq!(parsed[0]["status"], "Unknown");
}

#[test]
fn short_listing_is_lines() {
    let listing = list(fleet(), &options(false, false, NodeSortOpt::Created, false));
    assert_eq!(
        listing,
        Ok(Listing::Lines(vec![
            "4: bravo".to_string(),
            "1: alpha".to_string(),
            "2: charlie".to_string(),
            "3: delta".to_string()
        ]))
    );
}

#[test]
fn full_listing_is_a_table() {
    let listing = list(fleet(), &options(true, false, NodeSortOpt::Alphabetical, true));
    match listing {
        Ok(Listing::Table(table)) => {
            let found: Vec<i64> = table.iter().map(|r| r.id).collect();
            assert_eq!(found, vec![3, 2, 4, 1]);
            assert_eq!(table[0].status, "Running");
            assert_eq!(table[1].status, "Starting");
        }
        other => panic!("not a table: {:?}", other),
    }
}

#[test]
fn short_listing_in_json() {
    let nodes = vec![
        node(2, "b\"quoted\"", "2024", 1, 1, NodeStatus::Off),
        node(1, "a", "2023", 1, 1, NodeStatus::Running),
    ];
    let listing = list(nodes.clone(), &options(false, true, NodeSortOpt::Created, false));
    let text = match listing {
        Ok(Listing::Json(text)) => text,
        other => panic!("not JSON: {:?}", other),
    };
    assert_eq!(text, r#"[{"id":1,"name":"a"},{"id":2,"name":"b\"quoted\""}]"#);
    let mut expected = Vec::new();
    for (id, name) in [(1i64, "a"), (2, "b\"quoted\"")] {
        let mut map = serde_json::Map::new();
        map.insert("id".to_string(), serde_json::Value::Number(serde_json::Number::from(id)));
        map.insert("name".to_string(), serde_json::Value::String(name.to_string()));
        expected.push(map);
    }
    assert_eq!(text, serde_json::to_string(&expected).unwrap());
}

#[test]
fn full_listing_in_json() {
    let listing = list(fleet(), &options(true, true, NodeSortOpt::Cores, true));
    let text = match listing {
        Ok(Listing::Json(text)) => text,
        other => panic!("not JSON: {:?}", other),
    };
    let mut expected = Vec::new();
    for (id, name, status, shape) in [
        (4i64, "bravo", "Running", "cx4"),
        (3, "delta", "Running", "cx4"),
        (2, "charlie", "Starting", "cx2"),
        (1, "alpha", "Off", "cx2"),
    ] {
        let mut map = serde_json::Map::new();
        map.insert("id".to_string(), serde_json::Value::Number(serde_json::Number::from(id)));
        map.insert("name".to_string(), serde_json::Value::String(name.to_string()));
        map.insert("status".to_string(), serde_json::Value::String(status.to_string()));
        map.insert("shape".to_string(), serde_json::Value::String(shape.to_string()));
        expected.push(map);
    }
    assert_eq!(text, serde_json::to_string(&expected).unwrap());
    let parsed: serde_json::Value = serde_json::from_str(&text).unwrap();
    assert_eq!(parsed[0]["id"], 4);
    assert_eq!(parsed[0]["shape"], "cx4");
    assert_eq!(parsed[3]["status"], "Off");
}

#[test]
fn empty_listing_in_json() {
    let listing = list(vec![], &options(false, true, NodeSortOpt::Created, false));
    assert_eq!(listing, Ok(Listing::Json("[]".to_string())));
}

#[test]
fn encoder_result_becomes_a_listing() {
    assert_eq!(json_listing(Ok("[]".to_string())), Ok(Listing::Json("[]".to_string())));
    let error = serde_json::from_str::<serde_json::Value>("{").unwrap_err();
    assert_eq!(json_listing(Err(error)), Err(ListError::Encoding));
}
