use vstd::prelude::*;

verus! {

/// The shape of a configuration value: what its keys are made from.
#[derive(Debug)]
pub enum ConfigNode {
    /// A string, number, boolean or date.
    Scalar,
    /// A list of values, addressed by index.
    Array(Vec<ConfigNode>),
    /// Named values, in the order the configuration walks them.
    Table(Vec<(String, ConfigNode)>),
}

/// No two entries of a table share a name.
pub open spec fn names_unique(entries: Seq<(String, ConfigNode)>) -> bool {
    forall|i: int, j: int|
        0 <= i < j < entries.len() ==> #[trigger] entries[i].0@ != #[trigger] entries[j].0@
}

/// Every table within `node` names its entries uniquely, as a
/// configuration's tables do.
pub open spec fn node_wf(node: ConfigNode) -> bool
    decreases node, 1nat, 0nat,
{
    match node {
        ConfigNode::Scalar => true,
        ConfigNode::Array(items) => items_wf(items@, items@.len() as nat),
        ConfigNode::Table(entries) => names_unique(entries@) && entries_wf(
            entries@,
            entries@.len() as nat,
        ),
    }
}

/// The first `n` items of an array are well formed.
pub open spec fn items_wf(items: Seq<ConfigNode>, n: nat) -> bool
    decreases items, 0nat, n,
{
    if n == 0 || n > items.len() {
        true
    } else {
        items_wf(items, (n - 1) as nat) && node_wf(items[n - 1])
    }
}

/// The values of the first `n` entries of a table are well formed.
pub open spec fn entries_wf(entries: Seq<(String, ConfigNode)>, n: nat) -> bool
    decreases entries, 0nat, n,
{
    if n == 0 || n > entries.len() {
        true
    } else {
        entries_wf(entries, (n - 1) as nat) && node_wf(entries[n - 1].1)
    }
}

proof fn lemma_item_wf(items: Seq<ConfigNode>, n: nat, i: int)
    requires
        items_wf(items, n),
        0 <= i < n <= items.len(),
    ensures
        node_wf(items[i]),
    decreases n,
{
    if i < n - 1 {
        lemma_item_wf(items, (n - 1) as nat, i);
    }
}

proof fn lemma_entry_wf(entries: Seq<(String, ConfigNode)>, n: nat, i: int)
    requires
        entries_wf(entries, n),
        0 <= i < n <= entries.len(),
    ensures
        node_wf(entries[i].1),
    decreases n,
{
    if i < n - 1 {
        lemma_entry_wf(entries, (n - 1) as nat, i);
    }
}

/// `key` under `prefix`, joined by a dot.
pub open spec fn joined(prefix: Option<&str>, key: Seq<char>) -> Seq<char> {
    match prefix {
        Some(p) => p@ + seq!['.'] + key,
        None => key,
    }
}

pub fn join_key(prefix: Option<&str>, key: &str) -> (r: String)
    ensures
        r@ == joined(prefix, key@),
{
    match prefix {
        Some(p) => {
            let mut s = String::from_str(p);
            s.append(".");
            s.append(key);
            proof {
                reveal_strlit(".");
            }
            s
        },
        None => String::from_str(key),
    }
}

/// The decimal digits of `n`, most significant first.
pub open spec fn decimal(n: nat) -> Seq<char>
    decreases n,
{
    if n < 10 {
        seq![decimal_digit(n)]
    } else {
        decimal(n / 10).push(decimal_digit(n % 10))
    }
}

pub open spec fn decimal_digit(d: nat) -> char {
    seq!['0', '1', '2', '3', '4', '5', '6', '7', '8', '9'][d as int]
}

/// Writes `n` in decimal.
pub fn decimal_text(n: usize) -> (r: String)
    ensures
        r@ == decimal(n as nat),
    decreases n,
{
    let digit: &str = if n % 10 == 0 {
        "0"
    } else if n % 10 == 1 {
        "1"
    } else if n % 10 == 2 {
        "2"
    } else if n % 10 == 3 {
        "3"
    } else if n % 10 == 4 {
        "4"
    } else if n % 10 == 5 {
        "5"
    } else if n % 10 == 6 {
        "6"
    } else if n % 10 == 7 {
        "7"
    } else if n % 10 == 8 {
        "8"
    } else {
        "9"
    };
    proof {
        reveal_strlit("0");
        reveal_strlit("1");
        reveal_strlit("2");
        reveal_strlit("3");
        reveal_strlit("4");
        reveal_strlit("5");
        reveal_strlit("6");
        reveal_strlit("7");
        reveal_strlit("8");
        reveal_strlit("9");
    }
    assert(digit@ == seq![decimal_digit((n % 10) as nat)]);
    if n < 10 {
        String::from_str(digit)
    } else {
        let mut s = decimal_text(n / 10);
        s.append(digit);
        s
    }
}

/// The key of item `index` of the array under `key`.
pub open spec fn item_key(key: Seq<char>, index: nat) -> Seq<char> {
    key + seq!['['] + decimal(index) + seq![']']
}

/// The key of entry `name` of the table under `key`.
pub open spec fn entry_key(key: Seq<char>, name: Seq<char>) -> Seq<char> {
    key + seq!['.'] + name
}

/// The keys of every scalar reachable from `node`, which stands under `key`.
pub open spec fn node_keys(key: Seq<char>, node: ConfigNode, prefix: Option<&str>) -> Seq<Seq<char>>
    decreases node, 1nat, 0nat,
{
    match node {
        ConfigNode::Scalar => seq![joined(prefix, key)],
        ConfigNode::Array(items) => items_keys(key, items@, prefix, items@.len() as nat),
        ConfigNode::Table(entries) => entries_keys(key, entries@, prefix, entries@.len() as nat),
    }
}

/// The keys under the first `n` items of an array.
pub open spec fn items_keys(key: Seq<char>, items: Seq<ConfigNode>, prefix: Option<&str>, n: nat) -> Seq<Seq<char>>
    decreases items, 0nat, n,
{
    if n == 0 || n > items.len() {
        Seq::empty()
    } else {
        items_keys(key, items, prefix, (n - 1) as nat) + node_keys(
            joined(prefix, item_key(key, (n - 1) as nat)),
            items[n - 1],
            prefix,
        )
    }
}

/// The keys under the first `n` entries of a table.
pub open spec fn entries_keys(key: Seq<char>, entries: Seq<(String, ConfigNode)>, prefix: Option<&str>, n: nat) -> Seq<Seq<char>>
    decreases entries, 0nat, n,
{
    if n == 0 || n > entries.len() {
        Seq::empty()
    } else {
        entries_keys(key, entries, prefix, (n - 1) as nat) + node_keys(
            joined(prefix, entry_key(key, entries[n - 1].0@)),
            entries[n - 1].1,
            prefix,
        )
    }
}


/// The keys under each top-level entry, in turn.
pub open spec fn top_keys(entries: Seq<(String, ConfigNode)>, n: nat) -> Seq<Seq<char>>
    decreases n,
{
    if n == 0 || n > entries.len() {
        Seq::empty()
    } else {
        top_keys(entries, (n - 1) as nat) + node_keys(entries[n - 1].0@, entries[n - 1].1, None)
    }
}

pub open spec fn texts(v: Seq<String>) -> Seq<Seq<char>> {
    v.map_values(|s: String| s@)
}

/// Moves the keys of `more` to the end of `keys`.
fn extend_keys(keys: &mut Vec<String>, more: Vec<String>)
    ensures
        texts(final(keys)@) == texts(old(keys)@) + texts(more@),
{
    let mut more = more;
    let ghost before = keys@;
    let ghost added = more@;
    keys.append(&mut more);
    proof {
        assert(texts(keys@) =~= texts(before) + texts(added));
    }
}

/// The keys of every scalar reachable from `value`, which stands under
/// `key`; arrays add `[index]` and tables `.name` to the key.
pub fn recursive_items(key: &str, value: &ConfigNode, prefix: Option<&str>) -> (r: Vec<String>)
    requires
        node_wf(*value),
    ensures
        texts(r@) == node_keys(key@, *value, prefix),
    decreases value,
{
    match value {
        ConfigNode::Scalar => {
            let mut result: Vec<String> = Vec::new();
            result.push(join_key(prefix, key));
            proof {
                assert(texts(result@) =~= node_keys(key@, *value, prefix));
            }
            result
        },
        ConfigNode::Array(items) => {
            let mut result: Vec<String> = Vec::new();
            let mut i: usize = 0;
            while i < items.len()
                invariant
                    *value == ConfigNode::Array(*items),
                    node_wf(*value),
                    i <= items@.len(),
                    texts(result@) =~= items_keys(key@, items@, prefix, i as nat),
                decreases items@.len() - i,
            {
                let mut name = String::from_str(key);
                name.append("[");
                let index = decimal_text(i);
                name.append(index.as_str());
                name.append("]");
                proof {
                    reveal_strlit("[");
                    reveal_strlit("]");
                    assert(name@ =~= item_key(key@, i as nat));
                }
                let new_key = join_key(prefix, name.as_str());
                proof {
                    assert(decreases_to!(*value => value->Array_0));
                    assert(decreases_to!(*items => items@));
                    assert(decreases_to!(items@ => items@[i as int]));
                    lemma_item_wf(items@, items@.len() as nat, i as int);
                }
                let sub = recursive_items(new_key.as_str(), &items[i], prefix);
                extend_keys(&mut result, sub);
                i = i + 1;
            }
            result
        },
        ConfigNode::Table(entries) => {
            let mut result: Vec<String> = Vec::new();
            let mut i: usize = 0;
            while i < entries.len()
                invariant
                    *value == ConfigNode::Table(*entries),
                    node_wf(*value),
                    i <= entries@.len(),
                    texts(result@) =~= entries_keys(key@, entries@, prefix, i as nat),
                decreases entries@.len() - i,
            {
                let entry = &entries[i];
                let mut name = String::from_str(key);
                name.append(".");
                name.append(entry.0.as_str());
                proof {
                    reveal_strlit(".");
                    assert(name@ =~= entry_key(key@, entries@[i as int].0@));
                }
                let new_key = join_key(prefix, name.as_str());
                proof {
                    assert(decreases_to!(*value => value->Table_0));
                    assert(decreases_to!(*entries => entries@));
                    assert(decreases_to!(entries@ => entries@[i as int]));
                    assert(decreases_to!(entries@[i as int] => entries@[i as int].1));
                    lemma_entry_wf(entries@, entries@.len() as nat, i as int);
                }
                let sub = recursive_items(new_key.as_str(), &entry.1, prefix);
                extend_keys(&mut result, sub);
                i = i + 1;
            }
            result
        },
    }
}

/// Every key of a configuration, given its top-level entries in the order
/// they are walked.
pub fn get_keys(entries: &Vec<(String, ConfigNode)>) -> (r: Vec<String>)
    requires
        names_unique(entries@),
        forall|i: int| 0 <= i < entries@.len() ==> #[trigger] node_wf(entries@[i].1),
    ensures
        texts(r@) == top_keys(entries@, entries@.len() as nat),
{
    let mut result: Vec<String> = Vec::new();
    let mut i: usize = 0;
    while i < entries.len()
        invariant
            i <= entries@.len(),
            forall|j: int| 0 <= j < entries@.len() ==> #[trigger] node_wf(entries@[j].1),
            texts(result@) =~= top_keys(entries@, i as nat),
        decreases entries@.len() - i,
    {
        let entry = &entries[i];
        let sub = recursive_items(entry.0.as_str(), &entry.1, None);
        extend_keys(&mut result, sub);
        i = i + 1;
    }
    result
}

} // verus!
