//! The list of nodes: its order and its rows.

use crate::cmd::{CmdList, NodeSortOpt};
use crate::model::NodeStatus;
use crate::text::{
    decimal, lemma_str_le_total, lemma_str_le_transitive, spec_decimal, spec_str_le, str_le,
};
use vstd::prelude::*;
use vstd::string::StringExecFns;

verus! {

/// What a list of nodes shows of a node, and what it is sorted by.
///
/// `created` is the provider's timestamp. `memory_rank` stands for the size
/// of the memory: a node with more memory has the higher rank, and nodes
/// with the same memory have the same.
#[derive(Clone, Debug, PartialEq, Eq)]
pub struct Node {
    pub id: i64,
    pub name: String,
    pub created: String,
    pub cores: i32,
    pub memory_rank: i64,
    pub status: NodeStatus,
    pub shape: String,
}

/// The view of a [`Node`].
pub struct NodeView {
    pub id: i64,
    pub name: Seq<char>,
    pub created: Seq<char>,
    pub cores: i32,
    pub memory_rank: i64,
    pub status: NodeStatus,
    pub shape: Seq<char>,
}

impl View for Node {
    type V = NodeView;

    open spec fn view(&self) -> NodeView {
        NodeView {
            id: self.id,
            name: self.name@,
            created: self.created@,
            cores: self.cores,
            memory_rank: self.memory_rank,
            status: self.status,
            shape: self.shape@,
        }
    }
}

/// The views of a list of nodes, in order.
pub open spec fn nodes_view(nodes: Seq<Node>) -> Seq<NodeView> {
    nodes.map_values(|n: Node| n@)
}

/// The place of a status in the order of statuses.
pub open spec fn spec_status_rank(status: NodeStatus) -> int {
    match status {
        NodeStatus::Deleting => 0,
        NodeStatus::Initializing => 1,
        NodeStatus::Migrating => 2,
        NodeStatus::Off => 3,
        NodeStatus::Rebuilding => 4,
        NodeStatus::Running => 5,
        NodeStatus::Starting => 6,
        NodeStatus::Stopping => 7,
        NodeStatus::Unknown => 8,
    }
}

/// The place of a status in the order of statuses.
pub fn status_rank(status: NodeStatus) -> (rank: u8)
    ensures
        rank == spec_status_rank(status),
{
    match status {
        NodeStatus::Deleting => 0,
        NodeStatus::Initializing => 1,
        NodeStatus::Migrating => 2,
        NodeStatus::Off => 3,
        NodeStatus::Rebuilding => 4,
        NodeStatus::Running => 5,
        NodeStatus::Starting => 6,
        NodeStatus::Stopping => 7,
        NodeStatus::Unknown => 8,
    }
}

/// Whether `a` comes before `b` or ties with it when nodes are sorted by
/// `sort`.
pub open spec fn spec_node_le(sort: NodeSortOpt, a: NodeView, b: NodeView) -> bool {
    match sort {
        NodeSortOpt::Alphabetical => spec_str_le(a.name, b.name),
        NodeSortOpt::Created => spec_str_le(a.created, b.created),
        NodeSortOpt::Cores => a.cores <= b.cores,
        NodeSortOpt::Memory => a.memory_rank <= b.memory_rank,
        NodeSortOpt::Status => spec_status_rank(a.status) <= spec_status_rank(b.status),
    }
}

/// Whether two nodes tie when nodes are sorted by `sort`.
pub open spec fn spec_ties(sort: NodeSortOpt, a: NodeView, b: NodeView) -> bool {
    spec_node_le(sort, a, b) && spec_node_le(sort, b, a)
}

/// Whether every node of `nodes` comes before the nodes after it, or ties
/// with them.
pub open spec fn spec_sorted(sort: NodeSortOpt, nodes: Seq<NodeView>) -> bool {
    forall|i: int, j: int|
        0 <= i < j < nodes.len() ==> spec_node_le(sort, #[trigger] nodes[i], #[trigger] nodes[j])
}

/// The nodes of `nodes` that tie with `with`, in the order they have in
/// `nodes`.
pub open spec fn spec_tied(sort: NodeSortOpt, nodes: Seq<NodeView>, with: NodeView) -> Seq<
    NodeView,
> {
    nodes.filter(|n: NodeView| spec_ties(sort, n, with))
}

/// The sorted list `sorted` with `node` put before the first node that it
/// comes before or ties with, or at the end when there is none.
pub open spec fn spec_insert(sort: NodeSortOpt, node: NodeView, sorted: Seq<NodeView>) -> Seq<
    NodeView,
>
    decreases sorted.len(),
{
    if sorted.len() == 0 || spec_node_le(sort, node, sorted[0]) {
        seq![node] + sorted
    } else {
        seq![sorted[0]] + spec_insert(sort, node, sorted.drop_first())
    }
}

/// The nodes of `nodes` sorted by `sort`, with nodes that tie left in the
/// order they came in.
pub open spec fn spec_sort(sort: NodeSortOpt, nodes: Seq<NodeView>) -> Seq<NodeView>
    decreases nodes.len(),
{
    if nodes.len() == 0 {
        Seq::empty()
    } else {
        spec_insert(sort, nodes[0], spec_sort(sort, nodes.drop_first()))
    }
}

/// The nodes of `nodes` in the order that a listing shows them in: sorted by
/// `sort`, and the whole list turned round when `reverse` is set.
pub open spec fn spec_arrange(sort: NodeSortOpt, reverse: bool, nodes: Seq<NodeView>) -> Seq<
    NodeView,
> {
    if reverse {
        spec_sort(sort, nodes).reverse()
    } else {
        spec_sort(sort, nodes)
    }
}

/// Of two nodes, one comes before the other or they tie.
pub proof fn lemma_node_le_total(sort: NodeSortOpt, a: NodeView, b: NodeView)
    ensures
        spec_node_le(sort, a, b) || spec_node_le(sort, b, a),
{
    lemma_str_le_total(a.name, b.name);
    lemma_str_le_total(a.created, b.created);
}

/// The order of nodes is transitive.
pub proof fn lemma_node_le_transitive(sort: NodeSortOpt, a: NodeView, b: NodeView, c: NodeView)
    requires
        spec_node_le(sort, a, b),
        spec_node_le(sort, b, c),
    ensures
        spec_node_le(sort, a, c),
{
    match sort {
        NodeSortOpt::Alphabetical => lemma_str_le_transitive(a.name, b.name, c.name),
        NodeSortOpt::Created => lemma_str_le_transitive(a.created, b.created, c.created),
        _ => {},
    }
}

/// Inserting at the first place where the node comes before or ties with
/// what follows is inserting as [`spec_insert`] does.
pub proof fn lemma_insert_at(sort: NodeSortOpt, node: NodeView, sorted: Seq<NodeView>, at: int)
    requires
        0 <= at <= sorted.len(),
        forall|k: int| 0 <= k < at ==> !spec_node_le(sort, node, #[trigger] sorted[k]),
        at < sorted.len() ==> spec_node_le(sort, node, sorted[at]),
    ensures
        spec_insert(sort, node, sorted) == sorted.insert(at, node),
    decreases sorted.len(),
{
    if sorted.len() == 0 || spec_node_le(sort, node, sorted[0]) {
        assert(at == 0) by {
            if at > 0 {
                assert(!spec_node_le(sort, node, sorted[0]));
            }
        }
        assert(seq![node] + sorted =~= sorted.insert(0, node));
    } else {
        let rest = sorted.drop_first();
        assert forall|k: int| 0 <= k < at - 1 implies !spec_node_le(
            sort,
            node,
            #[trigger] rest[k],
        ) by {
            assert(rest[k] == sorted[k + 1]);
        }
        lemma_insert_at(sort, node, rest, at - 1);
        assert(seq![sorted[0]] + rest.insert(at - 1, node) =~= sorted.insert(at, node));
    }
}

/// Inserting a node into a sorted list leaves the list sorted.
pub proof fn lemma_insert_sorted(sort: NodeSortOpt, node: NodeView, sorted: Seq<NodeView>)
    requires
        spec_sorted(sort, sorted),
    ensures
        spec_sorted(sort, spec_insert(sort, node, sorted)),
        spec_insert(sort, node, sorted).len() == sorted.len() + 1,
        forall|k: int|
            0 <= k < sorted.len() + 1 ==> (#[trigger] spec_insert(sort, node, sorted)[k]) == node
                || sorted.contains(spec_insert(sort, node, sorted)[k]),
    decreases sorted.len(),
{
    let out = spec_insert(sort, node, sorted);
    if sorted.len() == 0 || spec_node_le(sort, node, sorted[0]) {
        assert forall|i: int, j: int| 0 <= i < j < out.len() implies spec_node_le(
            sort,
            #[trigger] out[i],
            #[trigger] out[j],
        ) by {
            if i == 0 {
                if j > 1 {
                    assert(spec_node_le(sort, sorted[0], sorted[j - 1]));
                    lemma_node_le_transitive(sort, node, sorted[0], sorted[j - 1]);
                }
            } else {
                assert(spec_node_le(sort, sorted[i - 1], sorted[j - 1]));
            }
        }
        assert forall|k: int| 0 <= k < sorted.len() + 1 implies (#[trigger] out[k]) == node
            || sorted.contains(out[k]) by {
            if k > 0 {
                assert(sorted[k - 1] == out[k]);
            }
        }
    } else {
        let rest = sorted.drop_first();
        assert forall|i: int, j: int| 0 <= i < j < rest.len() implies spec_node_le(
            sort,
            #[trigger] rest[i],
            #[trigger] rest[j],
        ) by {
            assert(spec_node_le(sort, sorted[i + 1], sorted[j + 1]));
        }
        lemma_insert_sorted(sort, node, rest);
        let tail = spec_insert(sort, node, rest);
        lemma_node_le_total(sort, node, sorted[0]);
        assert forall|k: int| 0 <= k < sorted.len() + 1 implies (#[trigger] out[k]) == node
            || sorted.contains(out[k]) by {
            if k > 0 {
                assert(out[k] == tail[k - 1]);
                if tail[k - 1] != node {
                    let at = choose|at: int| 0 <= at < rest.len() && rest[at] == tail[k - 1];
                    assert(sorted[at + 1] == out[k]);
                }
            } else {
                assert(sorted[0] == out[0]);
            }
        }
        assert forall|i: int, j: int| 0 <= i < j < out.len() implies spec_node_le(
            sort,
            #[trigger] out[i],
            #[trigger] out[j],
        ) by {
            if i == 0 {
                assert(out[j] == tail[j - 1]);
                if tail[j - 1] != node {
                    let at = choose|at: int| 0 <= at < rest.len() && rest[at] == tail[j - 1];
                    assert(spec_node_le(sort, sorted[0], sorted[at + 1]));
                }
            } else {
                assert(spec_node_le(sort, tail[i - 1], tail[j - 1]));
            }
        }
    }
}

/// The nodes of a one-node list that tie with `with`.
proof fn lemma_tied_single(sort: NodeSortOpt, node: NodeView, with: NodeView)
    ensures
        spec_tied(sort, seq![node], with) == if spec_ties(sort, node, with) {
            seq![node]
        } else {
            Seq::empty()
        },
{
    let pred = |n: NodeView| spec_ties(sort, n, with);
    let single = seq![node];
    reveal_with_fuel(Seq::filter, 2);
    assert(single.drop_last() =~= Seq::<NodeView>::empty());
    assert(single.last() == node);
    if pred(node) {
        assert(single.filter(pred) =~= seq![node]);
    } else {
        assert(single.filter(pred) =~= Seq::<NodeView>::empty());
    }
}

/// Inserting a node puts it before the nodes it ties with and leaves every
/// other node where it was among its ties.
pub proof fn lemma_insert_tied(
    sort: NodeSortOpt,
    node: NodeView,
    sorted: Seq<NodeView>,
    with: NodeView,
)
    ensures
        spec_tied(sort, spec_insert(sort, node, sorted), with) == spec_tied(
            sort,
            seq![node] + sorted,
            with,
        ),
    decreases sorted.len(),
{
    let pred = |n: NodeView| spec_ties(sort, n, with);
    if sorted.len() == 0 || spec_node_le(sort, node, sorted[0]) {
    } else {
        let first = seq![sorted[0]];
        let rest = sorted.drop_first();
        lemma_insert_tied(sort, node, rest, with);
        Seq::filter_distributes_over_add(first, spec_insert(sort, node, rest), pred);
        Seq::filter_distributes_over_add(seq![node], rest, pred);
        Seq::filter_distributes_over_add(seq![node], sorted, pred);
        Seq::filter_distributes_over_add(first, rest, pred);
        assert(first + rest =~= sorted);
        lemma_tied_single(sort, node, with);
        lemma_tied_single(sort, sorted[0], with);
        if spec_ties(sort, node, with) && spec_ties(sort, sorted[0], with) {
            lemma_node_le_transitive(sort, node, with, sorted[0]);
        }
        assert(first.filter(pred) + (seq![node].filter(pred) + rest.filter(pred)) =~= seq![
            node,
        ].filter(pred) + (first.filter(pred) + rest.filter(pred)));
    }
}

/// A sorted list is sorted: every node comes before the nodes after it, or
/// ties with them. It has as many nodes as the list it was sorted from.
pub proof fn law_sort_is_sorted(sort: NodeSortOpt, nodes: Seq<NodeView>)
    ensures
        spec_sorted(sort, spec_sort(sort, nodes)),
        spec_sort(sort, nodes).len() == nodes.len(),
    decreases nodes.len(),
{
    if nodes.len() > 0 {
        law_sort_is_sorted(sort, nodes.drop_first());
        lemma_insert_sorted(sort, nodes[0], spec_sort(sort, nodes.drop_first()));
    }
}

/// Sorting is stable and loses nothing: for any node, the nodes that tie
/// with it are the same before and after, and in the same order.
pub proof fn law_sort_is_stable(sort: NodeSortOpt, nodes: Seq<NodeView>, with: NodeView)
    ensures
        spec_tied(sort, spec_sort(sort, nodes), with) == spec_tied(sort, nodes, with),
    decreases nodes.len(),
{
    if nodes.len() > 0 {
        let pred = |n: NodeView| spec_ties(sort, n, with);
        let rest = nodes.drop_first();
        law_sort_is_stable(sort, rest, with);
        lemma_insert_tied(sort, nodes[0], spec_sort(sort, rest), with);
        Seq::filter_distributes_over_add(seq![nodes[0]], spec_sort(sort, rest), pred);
        Seq::filter_distributes_over_add(seq![nodes[0]], rest, pred);
        assert(seq![nodes[0]] + rest =~= nodes);
    }
}

/// Sorting keeps every node, each as often as it came in.
pub proof fn law_sort_is_a_permutation(sort: NodeSortOpt, nodes: Seq<NodeView>)
    ensures
        spec_sort(sort, nodes).to_multiset() == nodes.to_multiset(),
    decreases nodes.len(),
{
    broadcast use vstd::seq_lib::group_to_multiset_ensures;

    if nodes.len() > 0 {
        let rest = nodes.drop_first();
        law_sort_is_a_permutation(sort, rest);
        lemma_insert_is_a_permutation(sort, nodes[0], spec_sort(sort, rest));
        assert(rest.insert(0, nodes[0]) =~= nodes);
        assert(spec_sort(sort, rest).insert(0, nodes[0]).to_multiset() == rest.insert(
            0,
            nodes[0],
        ).to_multiset());
    } else {
        assert(spec_sort(sort, nodes) =~= nodes);
    }
}

/// Inserting a node adds that node and nothing else.
proof fn lemma_insert_is_a_permutation(sort: NodeSortOpt, node: NodeView, sorted: Seq<NodeView>)
    ensures
        spec_insert(sort, node, sorted).to_multiset() == sorted.insert(0, node).to_multiset(),
    decreases sorted.len(),
{
    broadcast use vstd::seq_lib::group_to_multiset_ensures;

    if sorted.len() == 0 || spec_node_le(sort, node, sorted[0]) {
        assert(seq![node] + sorted =~= sorted.insert(0, node));
    } else {
        let rest = sorted.drop_first();
        lemma_insert_is_a_permutation(sort, node, rest);
        let tail = spec_insert(sort, node, rest);
        assert(seq![sorted[0]] + tail =~= tail.insert(0, sorted[0]));
        assert(rest.insert(0, sorted[0]) =~= sorted);
        assert(tail.insert(0, sorted[0]).to_multiset() == tail.to_multiset().insert(sorted[0]));
        assert(rest.insert(0, node).to_multiset() == rest.to_multiset().insert(node));
        assert(sorted.insert(0, node).to_multiset() == sorted.to_multiset().insert(node));
        assert(sorted.to_multiset() == rest.to_multiset().insert(sorted[0]));
        assert(rest.to_multiset().insert(node).insert(sorted[0]) =~= rest.to_multiset().insert(
            sorted[0],
        ).insert(node));
    }
}

/// Whether `a` comes before `b` or ties with it when nodes are sorted by
/// `sort`: by name or by date of creation in the order of strings, by cores
/// or memory in the order of numbers, by status in the order of statuses.
pub fn node_le(sort: NodeSortOpt, a: &Node, b: &Node) -> (le: bool)
    ensures
        le == spec_node_le(sort, a@, b@),
{
    match sort {
        NodeSortOpt::Alphabetical => str_le(a.name.as_str(), b.name.as_str()),
        NodeSortOpt::Created => str_le(a.created.as_str(), b.created.as_str()),
        NodeSortOpt::Cores => a.cores <= b.cores,
        NodeSortOpt::Memory => a.memory_rank <= b.memory_rank,
        NodeSortOpt::Status => status_rank(a.status) <= status_rank(b.status),
    }
}

/// Sorts `nodes` by `sort`. Nodes that tie stay in the order they came in.
pub fn sort_nodes(nodes: Vec<Node>, sort: NodeSortOpt) -> (sorted: Vec<Node>)
    ensures
        nodes_view(sorted@) == spec_sort(sort, nodes_view(nodes@)),
{
    let ghost input = nodes_view(nodes@);
    let mut rest = nodes;
    let mut sorted: Vec<Node> = Vec::new();
    proof {
        assert(input.subrange(input.len() as int, input.len() as int) =~= Seq::<NodeView>::empty());
        assert(nodes_view(sorted@) =~= Seq::<NodeView>::empty());
    }
    while rest.len() > 0
        invariant
            rest.len() <= input.len(),
            nodes_view(rest@) == input.subrange(0, rest.len() as int),
            nodes_view(sorted@) == spec_sort(
                sort,
                input.subrange(rest.len() as int, input.len() as int),
            ),
        decreases rest.len(),
    {
        let ghost before = rest@;
        let ghost done = nodes_view(sorted@);
        let node = rest.pop().unwrap();
        proof {
            assert(node@ == nodes_view(before)[before.len() - 1]);
            assert(nodes_view(rest@) =~= input.subrange(0, rest.len() as int));
            let suffix = input.subrange(rest.len() as int, input.len() as int);
            assert(suffix[0] == node@);
            assert(suffix.drop_first() =~= input.subrange(before.len() as int, input.len() as int));
        }
        let mut at: usize = 0;
        while at < sorted.len() && !node_le(sort, &node, &sorted[at])
            invariant
                at <= sorted.len(),
                done == nodes_view(sorted@),
                forall|k: int| 0 <= k < at ==> !spec_node_le(sort, node@, #[trigger] done[k]),
            decreases sorted.len() - at,
        {
            at += 1;
        }
        proof {
            lemma_insert_at(sort, node@, done, at as int);
        }
        sorted.insert(at, node);
        proof {
            assert(nodes_view(sorted@) =~= done.insert(at as int, node@));
        }
    }
    proof {
        assert(input.subrange(0, input.len() as int) =~= input);
    }
    sorted
}

/// Turns `nodes` round: the last node comes first.
pub fn reverse_nodes(nodes: Vec<Node>) -> (reversed: Vec<Node>)
    ensures
        nodes_view(reversed@) == nodes_view(nodes@).reverse(),
{
    let ghost input = nodes_view(nodes@);
    let mut rest = nodes;
    let mut reversed: Vec<Node> = Vec::new();
    while rest.len() > 0
        invariant
            rest.len() <= input.len(),
            nodes_view(rest@) == input.subrange(0, rest.len() as int),
            reversed.len() == input.len() - rest.len(),
            forall|k: int|
                0 <= k < reversed.len() ==> (#[trigger] reversed@[k])@ == input[input.len() - 1
                    - k],
        decreases rest.len(),
    {
        let ghost before = rest@;
        let node = rest.pop().unwrap();
        proof {
            assert(node@ == nodes_view(before)[before.len() - 1]);
            assert(nodes_view(rest@) =~= input.subrange(0, rest.len() as int));
        }
        reversed.push(node);
    }
    proof {
        assert(nodes_view(reversed@) =~= input.reverse());
    }
    reversed
}

/// Puts `nodes` in the order that a listing shows them in: sorted by `sort`,
/// nodes that tie in the order they came in, and the whole list turned round
/// when `reverse` is set.
pub fn arrange(nodes: Vec<Node>, sort: NodeSortOpt, reverse: bool) -> (arranged: Vec<Node>)
    ensures
        nodes_view(arranged@) == spec_arrange(sort, reverse, nodes_view(nodes@)),
{
    let sorted = sort_nodes(nodes, sort);
    if reverse {
        reverse_nodes(sorted)
    } else {
        sorted
    }
}

/// The name that a listing shows for a status.
pub open spec fn spec_status_name(status: NodeStatus) -> Seq<char> {
    match status {
        NodeStatus::Deleting => "Deleting"@,
        NodeStatus::Initializing => "Initializing"@,
        NodeStatus::Migrating => "Migrating"@,
        NodeStatus::Off => "Off"@,
        NodeStatus::Rebuilding => "Rebuilding"@,
        NodeStatus::Running => "Running"@,
        NodeStatus::Starting => "Starting"@,
        NodeStatus::Stopping => "Stopping"@,
        NodeStatus::Unknown => "Unknown"@,
    }
}

/// The name that a listing shows for a status.
pub fn status_name(status: NodeStatus) -> (name: String)
    ensures
        name@ == spec_status_name(status),
{
    match status {
        NodeStatus::Deleting => String::from_str("Deleting"),
        NodeStatus::Initializing => String::from_str("Initializing"),
        NodeStatus::Migrating => String::from_str("Migrating"),
        NodeStatus::Off => String::from_str("Off"),
        NodeStatus::Rebuilding => String::from_str("Rebuilding"),
        NodeStatus::Running => String::from_str("Running"),
        NodeStatus::Starting => String::from_str("Starting"),
        NodeStatus::Stopping => String::from_str("Stopping"),
        NodeStatus::Unknown => String::from_str("Unknown"),
    }
}

/// A row of the table of nodes.
#[derive(Clone, Debug, PartialEq, Eq)]
pub struct NodeTable {
    pub name: String,
    pub id: i64,
    pub status: String,
    pub shape: String,
}

/// The view of a [`NodeTable`].
pub struct NodeTableView {
    pub name: Seq<char>,
    pub id: i64,
    pub status: Seq<char>,
    pub shape: Seq<char>,
}

impl View for NodeTable {
    type V = NodeTableView;

    open spec fn view(&self) -> NodeTableView {
        NodeTableView { name: self.name@, id: self.id, status: self.status@, shape: self.shape@ }
    }
}

/// The row that the table shows for a node.
pub open spec fn spec_row(node: NodeView) -> NodeTableView {
    NodeTableView {
        name: node.name,
        id: node.id,
        status: spec_status_name(node.status),
        shape: node.shape,
    }
}

impl NodeTable {
    /// The row that the table shows for `node`: its name, its id, the name
    /// of its status and the name of its shape.
    pub fn from(node: Node) -> (row: NodeTable)
        ensures
            row@ == spec_row(node@),
    {
        NodeTable {
            name: node.name,
            id: node.id,
            status: status_name(node.status),
            shape: node.shape,
        }
    }
}

/// What stands under a key of a JSON object: a number or a text.
#[derive(Clone, Debug, PartialEq, Eq)]
pub enum Field {
    Number(i64),
    Text(String),
}

/// The view of a [`Field`].
pub enum FieldView {
    Number(i64),
    Text(Seq<char>),
}

impl View for Field {
    type V = FieldView;

    open spec fn view(&self) -> FieldView {
        match *self {
            Field::Number(n) => FieldView::Number(n),
            Field::Text(text) => FieldView::Text(text@),
        }
    }
}

/// The JSON object of the encoder crate.
#[verifier::external_type_specification]
#[verifier::external_body]
#[verifier::reject_recursive_types(K)]
#[verifier::reject_recursive_types(V)]
pub struct ExJsonObject<K, V>(serde_json::Map<K, V>);

/// The JSON value of the encoder crate.
#[verifier::external_type_specification]
#[verifier::external_body]
pub struct ExJsonValue(serde_json::Value);

/// The error of the JSON encoder.
#[verifier::external_type_specification]
#[verifier::external_body]
pub struct ExJsonError(serde_json::Error);

/// The fields that a JSON object holds: its keys, and under each key the
/// number or the text that stands there.
pub uninterp spec fn spec_fields(object: serde_json::Map<String, serde_json::Value>) -> Map<
    Seq<char>,
    FieldView,
>;

/// Whether a JSON object holds nothing but whole numbers that fit in 64
/// bits with their sign, and texts, so that its fields say all there is to
/// say of it.
pub uninterp spec fn spec_is_plain(object: serde_json::Map<String, serde_json::Value>) -> bool;

/// The JSON text that the encoder writes for an array of plain objects with
/// the given fields.
pub uninterp spec fn spec_json_text(objects: Seq<Map<Seq<char>, FieldView>>) -> Seq<char>;

/// The fields of a list of JSON objects, in order.
pub open spec fn objects_view(objects: Seq<serde_json::Map<String, serde_json::Value>>) -> Seq<
    Map<Seq<char>, FieldView>,
> {
    objects.map_values(|o: serde_json::Map<String, serde_json::Value>| spec_fields(o))
}

/// The fields of an object that holds none.
pub open spec fn spec_no_fields() -> Map<Seq<char>, FieldView> {
    Map::empty()
}

/// Makes an empty JSON object.
///
/// Calls `serde_json::Map::new`. The contract claims that the object holds
/// no field, and so nothing that is not plain.
#[verifier::external_body]
fn new_object() -> (object: serde_json::Map<String, serde_json::Value>)
    ensures
        spec_fields(object) == spec_no_fields(),
        spec_is_plain(object),
{
    serde_json::Map::new()
}

/// Puts `field` under the key `name` of `object`.
///
/// Calls `serde_json::Map::insert` with a number field as `Value::Number`
/// and a text field as `Value::String`. The contract claims that the object
/// holds the field under that key afterwards, in place of what stood there,
/// that every other key is as it was, and that a plain object stays plain.
#[verifier::external_body]
fn insert_field(
    object: &mut serde_json::Map<String, serde_json::Value>,
    name: String,
    field: Field,
)
    ensures
        spec_fields(*final(object)) == spec_fields(*old(object)).insert(name@, field@),
        spec_is_plain(*old(object)) ==> spec_is_plain(*final(object)),
{
    object.insert(
        name,
        match field {
            Field::Number(number) => serde_json::Value::Number(serde_json::Number::from(number)),
            Field::Text(text) => serde_json::Value::String(text),
        },
    );
}

/// Encodes `objects` as a JSON array.
///
/// Calls `serde_json::to_string`. The contract claims, of plain objects
/// only, that the encoder succeeds and that the text it returns depends on
/// the fields of the objects alone; it gives that text a name. The encoder
/// writes into memory, every key is a string and every value a number or a
/// string, so none of its causes of failure can occur.
#[verifier::external_body]
fn encode(
    objects: &Vec<serde_json::Map<String, serde_json::Value>>,
) -> (text: Result<String, serde_json::Error>)
    requires
        forall|i: int| 0 <= i < objects@.len() ==> spec_is_plain(#[trigger] objects@[i]),
    ensures
        text is Ok,
        text matches Ok(t) ==> t@ == spec_json_text(objects_view(objects@)),
{
    serde_json::to_string(objects)
}

/// The line that a short listing shows for a node: its id, a colon and a
/// space, and its name.
pub open spec fn spec_line(node: NodeView) -> Seq<char> {
    spec_decimal(node.id as int) + seq![':', ' '] + node.name
}

/// The fields of the object that a listing in JSON shows for a node: `id`
/// and `name`, and in full also `status` and `shape`, the names of its
/// status and of its shape.
pub open spec fn spec_record(node: NodeView, full: bool) -> Map<Seq<char>, FieldView> {
    let brief = spec_no_fields().insert("id"@, FieldView::Number(node.id)).insert(
        "name"@,
        FieldView::Text(node.name),
    );
    if full {
        brief.insert("status"@, FieldView::Text(spec_status_name(node.status))).insert(
            "shape"@,
            FieldView::Text(node.shape),
        )
    } else {
        brief
    }
}

/// The object of a node has the keys `id` and `name`, and in full also
/// `status` and `shape`, and no other; under them stand the id of the node,
/// its name, the name of its status and the name of its shape.
pub proof fn law_record_fields(node: NodeView, full: bool)
    ensures
        spec_record(node, full).dom() == if full {
            set!["id"@, "name"@, "status"@, "shape"@]
        } else {
            set!["id"@, "name"@]
        },
        spec_record(node, full)["id"@] == FieldView::Number(node.id),
        spec_record(node, full)["name"@] == FieldView::Text(node.name),
        full ==> spec_record(node, full)["status"@] == FieldView::Text(
            spec_status_name(node.status),
        ),
        full ==> spec_record(node, full)["shape"@] == FieldView::Text(node.shape),
{
    reveal_strlit("id");
    reveal_strlit("name");
    reveal_strlit("status");
    reveal_strlit("shape");
    assert("id"@.len() != "name"@.len());
    assert("id"@.len() != "status"@.len());
    assert("id"@.len() != "shape"@.len());
    assert("name"@.len() != "status"@.len());
    assert("name"@.len() != "shape"@.len());
    assert("status"@.len() != "shape"@.len());
    if full {
        assert(spec_record(node, full).dom() =~= set!["id"@, "name"@, "status"@, "shape"@]);
    } else {
        assert(spec_record(node, full).dom() =~= set!["id"@, "name"@]);
    }
}

/// The lines of a short listing of `nodes`.
pub open spec fn spec_lines(nodes: Seq<NodeView>) -> Seq<Seq<char>> {
    nodes.map_values(|n: NodeView| spec_line(n))
}

/// The rows of the table of `nodes`.
pub open spec fn spec_rows(nodes: Seq<NodeView>) -> Seq<NodeTableView> {
    nodes.map_values(|n: NodeView| spec_row(n))
}

/// The fields of the objects of a listing of `nodes` in JSON, one object
/// for each node and in their order.
pub open spec fn spec_records(nodes: Seq<NodeView>, full: bool) -> Seq<Map<Seq<char>, FieldView>> {
    nodes.map_values(|n: NodeView| spec_record(n, full))
}

/// The line that a short listing shows for `node`.
pub fn node_line(node: &Node) -> (text: String)
    ensures
        text@ == spec_line(node@),
{
    let mut text = decimal(node.id);
    proof {
        reveal_strlit(": ");
    }
    text.append(": ");
    text.append(node.name.as_str());
    proof {
        assert(text@ =~= spec_line(node@));
    }
    text
}

/// The object that a listing in JSON shows for `node`.
pub fn record(node: &Node, full: bool) -> (object: serde_json::Map<String, serde_json::Value>)
    ensures
        spec_fields(object) == spec_record(node@, full),
        spec_is_plain(object),
{
    let mut object = new_object();
    insert_field(&mut object, String::from_str("id"), Field::Number(node.id));
    insert_field(&mut object, String::from_str("name"), Field::Text(node.name.clone()));
    if full {
        insert_field(&mut object, String::from_str("status"), Field::Text(status_name(node.status)));
        insert_field(&mut object, String::from_str("shape"), Field::Text(node.shape.clone()));
    }
    object
}

/// The lines of a short listing of `nodes`, one for each node and in their
/// order.
pub fn lines(nodes: &Vec<Node>) -> (texts: Vec<String>)
    ensures
        texts@.map_values(|t: String| t@) == spec_lines(nodes_view(nodes@)),
{
    let mut texts: Vec<String> = Vec::new();
    let mut i: usize = 0;
    while i < nodes.len()
        invariant
            i <= nodes.len(),
            texts.len() == i,
            forall|k: int| 0 <= k < i ==> (#[trigger] texts@[k])@ == spec_line(nodes@[k]@),
        decreases nodes.len() - i,
    {
        texts.push(node_line(&nodes[i]));
        i += 1;
    }
    proof {
        assert(texts@.map_values(|t: String| t@) =~= spec_lines(nodes_view(nodes@)));
    }
    texts
}

/// The rows of the table of `nodes`, one for each node and in their order.
pub fn rows(nodes: Vec<Node>) -> (table: Vec<NodeTable>)
    ensures
        table@.map_values(|r: NodeTable| r@) == spec_rows(nodes_view(nodes@)),
{
    let ghost input = nodes_view(nodes@);
    let mut rest = reverse_nodes(nodes);
    let mut table: Vec<NodeTable> = Vec::new();
    while rest.len() > 0
        invariant
            nodes_view(rest@).len() == rest.len(),
            table.len() + rest.len() == input.len(),
            nodes_view(rest@) == input.reverse().subrange(0, rest.len() as int),
            forall|k: int| 0 <= k < table.len() ==> (#[trigger] table@[k])@ == spec_row(input[k]),
        decreases rest.len(),
    {
        let ghost before = rest@;
        let node = rest.pop().unwrap();
        proof {
            assert(node@ == nodes_view(before)[before.len() - 1]);
            assert(nodes_view(rest@) =~= input.reverse().subrange(0, rest.len() as int));
            assert(node@ == input[table.len() as int]);
        }
        table.push(NodeTable::from(node));
    }
    proof {
        assert(table@.map_values(|r: NodeTable| r@) =~= spec_rows(input));
    }
    table
}

/// The objects of a listing of `nodes` in JSON, one for each node and in
/// their order.
pub fn records(nodes: &Vec<Node>, full: bool) -> (all: Vec<
    serde_json::Map<String, serde_json::Value>,
>)
    ensures
        objects_view(all@) == spec_records(nodes_view(nodes@), full),
        forall|i: int| 0 <= i < all@.len() ==> spec_is_plain(#[trigger] all@[i]),
{
    let mut all: Vec<serde_json::Map<String, serde_json::Value>> = Vec::new();
    let mut i: usize = 0;
    while i < nodes.len()
        invariant
            i <= nodes.len(),
            all.len() == i,
            forall|k: int| 0 <= k < i ==> spec_fields(#[trigger] all@[k]) == spec_record(
                nodes@[k]@,
                full,
            ),
            forall|k: int| 0 <= k < i ==> spec_is_plain(#[trigger] all@[k]),
        decreases nodes.len() - i,
    {
        all.push(record(&nodes[i], full));
        i += 1;
    }
    proof {
        assert(objects_view(all@) =~= spec_records(nodes_view(nodes@), full));
    }
    all
}

/// A list of nodes, made ready to be shown.
#[derive(Clone, Debug, PartialEq, Eq)]
pub enum Listing {
    /// One line for each node.
    Lines(Vec<String>),
    /// The nodes as one JSON text.
    Json(String),
    /// One row of a table for each node.
    Table(Vec<NodeTable>),
}

/// The view of a [`Listing`].
pub enum ListingView {
    Lines(Seq<Seq<char>>),
    Json(Seq<char>),
    Table(Seq<NodeTableView>),
}

impl View for Listing {
    type V = ListingView;

    open spec fn view(&self) -> ListingView {
        match *self {
            Listing::Lines(texts) => ListingView::Lines(texts@.map_values(|t: String| t@)),
            Listing::Json(text) => ListingView::Json(text@),
            Listing::Table(table) => ListingView::Table(table@.map_values(|r: NodeTable| r@)),
        }
    }
}

/// Why a list of nodes could not be made ready.
#[derive(Clone, Copy, Debug, PartialEq, Eq, Structural)]
pub enum ListError {
    /// The JSON encoder failed.
    Encoding,
}

/// Turns what the JSON encoder returned into a listing: its text when it
/// succeeded, [`ListError::Encoding`] when it failed.
pub fn json_listing(encoded: Result<String, serde_json::Error>) -> (listing: Result<
    Listing,
    ListError,
>)
    ensures
        match encoded {
            Ok(text) => listing matches Ok(l) && l@ == ListingView::Json(text@),
            Err(_) => listing == Err::<Listing, ListError>(ListError::Encoding),
        },
{
    match encoded {
        Ok(text) => Ok(Listing::Json(text)),
        Err(_) => Err(ListError::Encoding),
    }
}

/// The listing of nodes that are already in order: in JSON the text that
/// the encoder writes for their objects, else a table in full and lines
/// otherwise.
pub open spec fn spec_listing(nodes: Seq<NodeView>, full: bool, json: bool) -> ListingView {
    if json {
        ListingView::Json(spec_json_text(spec_records(nodes, full)))
    } else if full {
        ListingView::Table(spec_rows(nodes))
    } else {
        ListingView::Lines(spec_lines(nodes))
    }
}

/// Makes the list of `nodes` ready to be shown as `args` asks.
///
/// The nodes are sorted by `args.sort`, nodes that tie staying in the order
/// they came in, and the list is turned round when `args.reverse` is set.
/// With `args.json` the listing is the text that the JSON encoder writes for
/// the objects of the nodes; without it the listing is the table of the
/// nodes when `args.full` is set and one line for each node otherwise. The
/// listing is made for every input.
pub fn list(nodes: Vec<Node>, args: &CmdList) -> (listing: Result<Listing, ListError>)
    ensures
        listing matches Ok(l) && l@ == spec_listing(
            spec_arrange(args.sort, args.reverse, nodes_view(nodes@)),
            args.full,
            args.json,
        ),
{
    let arranged = arrange(nodes, args.sort, args.reverse);
    if args.json {
        let all = records(&arranged, args.full);
        json_listing(encode(&all))
    } else if args.full {
        Ok(Listing::Table(rows(arranged)))
    } else {
        Ok(Listing::Lines(lines(&arranged)))
    }
}

} // verus!
