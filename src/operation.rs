//! Tables, the workload operations issued against them, and the progress of
//! each operation.

use vstd::prelude::*;

use crate::text::{decimal, push_decimal};

verus! {

/// A table of the storage engine, and the number of entries already inserted
/// into it.
#[derive(Debug)]
pub struct WtTable {
    pub name: String,
    pub total_entries: u32,
}

impl WtTable {
    /// A table named `name` that holds `total_entries` entries.
    pub fn new(name: String, total_entries: u32) -> (r: WtTable)
        ensures
            r.name@ == name@,
            r.total_entries == total_entries,
    {
        WtTable { name, total_entries }
    }
}

impl Clone for WtTable {
    fn clone(&self) -> (r: WtTable)
        ensures
            r.name@ == self.name@,
            r.total_entries == self.total_entries,
    {
        WtTable { name: self.name.clone(), total_entries: self.total_entries }
    }
}

/// The tables of the engine, each under a name of its own. This is the one
/// place that holds a table's state: operations name the table they work on,
/// so every operation on a table sees the same entry count.
pub struct WtTables {
    tables: Vec<WtTable>,
    entries: Ghost<Map<Seq<char>, u32>>,
}

impl View for WtTables {
    type V = Map<Seq<char>, u32>;

    /// Each table's name, mapped to its entry count.
    closed spec fn view(&self) -> Map<Seq<char>, u32> {
        self.entries@
    }
}

impl WtTables {
    /// The names are distinct, and the map holds exactly the stored tables.
    pub closed spec fn wf(&self) -> bool {
        &&& forall|i: int, j: int|
            0 <= i < j < self.tables@.len() ==> self.tables@[i].name@ != self.tables@[j].name@
        &&& forall|i: int| 0 <= i < self.tables@.len() ==> {
            &&& self.entries@.contains_key(#[trigger] self.tables@[i].name@)
            &&& self.entries@[self.tables@[i].name@] == self.tables@[i].total_entries
        }
        &&& forall|k: Seq<char>| #[trigger] self.entries@.contains_key(k) ==>
            exists|i: int| 0 <= i < self.tables@.len() && self.tables@[i].name@ == k
    }

    /// No tables.
    pub fn new() -> (r: WtTables)
        ensures
            r.wf(),
            r@ == Map::<Seq<char>, u32>::empty(),
    {
        WtTables { tables: Vec::new(), entries: Ghost(Map::empty()) }
    }

    fn find(&self, name: &String) -> (r: Option<usize>)
        requires
            self.wf(),
        ensures
            match r {
                Some(i) => i < self.tables@.len() && self.tables@[i as int].name@ == name@,
                None => !self@.contains_key(name@),
            },
    {
        let mut i: usize = 0;
        while i < self.tables.len()
            invariant
                self.wf(),
                i <= self.tables@.len(),
                forall|j: int| 0 <= j < i ==> self.tables@[j].name@ != name@,
            decreases self.tables@.len() - i,
        {
            if self.tables[i].name == *name {
                return Some(i);
            }
            i = i + 1;
        }
        None
    }

    /// Adds an empty table named `name`, unless a table of that name is
    /// already there. Returns whether it was added.
    pub fn add(&mut self, name: String) -> (added: bool)
        requires
            old(self).wf(),
        ensures
            final(self).wf(),
            added == !old(self)@.contains_key(name@),
            final(self)@ == (if added { old(self)@.insert(name@, 0) } else { old(self)@ }),
    {
        if self.find(&name).is_some() {
            return false;
        }
        let ghost key = name@;
        let ghost before = self.tables@;
        self.tables.push(WtTable { name, total_entries: 0 });
        self.entries = Ghost(self.entries@.insert(key, 0));
        proof {
            assert(self.tables@[before.len() as int].name@ == key);
            assert forall|i: int| 0 <= i < before.len() implies self.tables@[i] == before[i] by {}
            assert forall|k: Seq<char>| #[trigger] self.entries@.contains_key(k) implies
                exists|i: int| 0 <= i < self.tables@.len() && self.tables@[i].name@ == k by {
                if k != key {
                    let i = choose|i: int| 0 <= i < before.len() && before[i].name@ == k;
                    assert(self.tables@[i].name@ == k);
                } else {
                    assert(self.tables@[before.len() as int].name@ == k);
                }
            }
        }
        true
    }

    /// The entry count of the table named `name`, if there is one.
    pub fn total_entries(&self, name: &String) -> (r: Option<u32>)
        requires
            self.wf(),
        ensures
            r == (if self@.contains_key(name@) { Some(self@[name@]) } else { None }),
    {
        match self.find(name) {
            Some(i) => Some(self.tables[i].total_entries),
            None => None,
        }
    }

    /// Sets the entry count of the table named `name`, if there is one.
    /// Returns whether there was.
    pub fn set_total_entries(&mut self, name: &String, total_entries: u32) -> (found: bool)
        requires
            old(self).wf(),
        ensures
            final(self).wf(),
            found == old(self)@.contains_key(name@),
            final(self)@ == (if found { old(self)@.insert(name@, total_entries) } else { old(self)@ }),
    {
        match self.find(name) {
            None => false,
            Some(i) => {
                let ghost before = self.tables@;
                let table_name = self.tables[i].name.clone();
                self.tables.set(i, WtTable { name: table_name, total_entries });
                self.entries = Ghost(self.entries@.insert(name@, total_entries));
                proof {
                    assert forall|k: Seq<char>| #[trigger] self.entries@.contains_key(k) implies
                        exists|j: int| 0 <= j < self.tables@.len() && self.tables@[j].name@ == k by {
                        let j = choose|j: int| 0 <= j < before.len() && before[j].name@ == k;
                        assert(self.tables@[j].name@ == k);
                    }
                }
                true
            },
        }
    }
}

/// One line of work, such as "insert 100 foo": insert 100 items into the
/// table named `foo`. An operation refers to its table by name; the table's
/// state lives in `WtTables`.
#[derive(Debug)]
pub enum WtOperation {
    Insert(u32, String),
    Update(u32, String),
    Delete(u32, String),
    Drop(String),
}

impl WtOperation {
    /// The name of the table that the operation works on.
    pub open spec fn table_spec(&self) -> Seq<char> {
        match self {
            WtOperation::Insert(_, t) => t@,
            WtOperation::Update(_, t) => t@,
            WtOperation::Delete(_, t) => t@,
            WtOperation::Drop(t) => t@,
        }
    }

    /// The number of items requested; a drop has none.
    pub open spec fn count_spec(&self) -> Option<u32> {
        match self {
            WtOperation::Insert(c, _) => Some(*c),
            WtOperation::Update(c, _) => Some(*c),
            WtOperation::Delete(c, _) => Some(*c),
            WtOperation::Drop(_) => None,
        }
    }

    /// The same kind of operation, with the same count, on the same table.
    pub open spec fn same_as(&self, other: &WtOperation) -> bool {
        &&& self.count_spec() == other.count_spec()
        &&& self.table_spec() == other.table_spec()
        &&& (self is Insert <==> other is Insert)
        &&& (self is Update <==> other is Update)
        &&& (self is Delete <==> other is Delete)
        &&& (self is Drop <==> other is Drop)
    }

    /// The text that describes the operation, in the shape of a struct:
    /// `Insert { count: 100, table.name: "foo" }`. A drop is written under
    /// the label `Delete`, without a count.
    pub open spec fn describe_spec(&self) -> Seq<char> {
        match self {
            WtOperation::Insert(c, t) => struct_text("Insert"@, Some(*c), t@),
            WtOperation::Update(c, t) => struct_text("Update"@, Some(*c), t@),
            WtOperation::Delete(c, t) => struct_text("Delete"@, Some(*c), t@),
            WtOperation::Drop(t) => struct_text("Delete"@, None, t@),
        }
    }

    /// The text that describes the operation (see `describe_spec`).
    pub fn describe(&self) -> (r: String)
        ensures
            r@ == self.describe_spec(),
    {
        proof {
            reveal_strlit("Insert");
            reveal_strlit("Update");
            reveal_strlit("Delete");
        }
        match self {
            WtOperation::Insert(c, t) => write_struct("Insert", Some(*c), t.as_str()),
            WtOperation::Update(c, t) => write_struct("Update", Some(*c), t.as_str()),
            WtOperation::Delete(c, t) => write_struct("Delete", Some(*c), t.as_str()),
            WtOperation::Drop(t) => write_struct("Delete", None, t.as_str()),
        }
    }

    /// The name of the table that the operation works on.
    pub fn table(&self) -> (r: &String)
        ensures
            r@ == self.table_spec(),
    {
        match self {
            WtOperation::Insert(_, t) => t,
            WtOperation::Update(_, t) => t,
            WtOperation::Delete(_, t) => t,
            WtOperation::Drop(t) => t,
        }
    }

    /// The number of items requested; a drop has none.
    pub fn count(&self) -> (r: Option<u32>)
        ensures
            r == self.count_spec(),
    {
        match self {
            WtOperation::Insert(c, _) => Some(*c),
            WtOperation::Update(c, _) => Some(*c),
            WtOperation::Delete(c, _) => Some(*c),
            WtOperation::Drop(_) => None,
        }
    }
}

/// What `quoted` returns for a table name: the name between double quotes,
/// with quotes, backslashes and control characters escaped.
pub uninterp spec fn debug_quoted(s: Seq<char>) -> Seq<char>;

/// Relies on the `Debug` formatting of `str`, whose output depends on the
/// characters of the string alone.
#[verifier::external_body]
fn quoted(s: &str) -> (r: String)
    ensures
        r@ == debug_quoted(s@),
{
    format!("{:?}", s)
}

/// `label { count: c, table.name: quoted_name }`, or without the count where
/// there is none.
pub open spec fn struct_text_quoted(label: Seq<char>, count: Option<u32>, quoted_name: Seq<char>) -> Seq<char> {
    let count_part = match count {
        Some(c) => "count: "@ + decimal(c as nat) + ", "@,
        None => Seq::empty(),
    };
    label + " { "@ + count_part + "table.name: "@ + quoted_name + " }"@
}

/// `label { count: c, table.name: "name" }`, with the name quoted by `quoted`.
pub open spec fn struct_text(label: Seq<char>, count: Option<u32>, name: Seq<char>) -> Seq<char> {
    struct_text_quoted(label, count, debug_quoted(name))
}

/// The text of `struct_text_quoted`, for a name that is already quoted.
pub fn write_struct_quoted(label: &str, count: Option<u32>, quoted_name: &str) -> (r: String)
    ensures
        r@ == struct_text_quoted(label@, count, quoted_name@),
{
    proof {
        reveal_strlit(" { ");
        reveal_strlit("count: ");
        reveal_strlit(", ");
        reveal_strlit("table.name: ");
        reveal_strlit(" }");
    }
    let mut out = String::new();
    out.append(label);
    out.append(" { ");
    let ghost before_count = out@;
    match count {
        Some(c) => {
            out.append("count: ");
            push_decimal(&mut out, c);
            out.append(", ");
        },
        None => {},
    }
    let ghost after_count = out@;
    out.append("table.name: ");
    out.append(quoted_name);
    out.append(" }");
    proof {
        let count_part = match count {
            Some(c) => "count: "@ + decimal(c as nat) + ", "@,
            None => Seq::<char>::empty(),
        };
        assert(after_count =~= before_count + count_part);
        assert(out@ =~= struct_text_quoted(label@, count, quoted_name@));
    }
    out
}

fn write_struct(label: &str, count: Option<u32>, name: &str) -> (r: String)
    ensures
        r@ == struct_text(label@, count, name@),
{
    let q = quoted(name);
    write_struct_quoted(label, count, q.as_str())
}

/// Copying an operation copies the name of its table, not the table: the
/// copy works on the same table in `WtTables`.
impl Clone for WtOperation {
    fn clone(&self) -> (r: WtOperation)
        ensures
            r.same_as(self),
    {
        match self {
            WtOperation::Insert(count, table) => WtOperation::Insert(*count, table.clone()),
            WtOperation::Update(count, table) => WtOperation::Update(*count, table.clone()),
            WtOperation::Delete(count, table) => WtOperation::Delete(*count, table.clone()),
            WtOperation::Drop(table) => WtOperation::Drop(table.clone()),
        }
    }
}

/// An operation and its copy are described by the same text.
pub proof fn copy_describes_alike(a: &WtOperation, b: &WtOperation)
    requires
        b.same_as(a),
    ensures
        b.describe_spec() == a.describe_spec(),
{
}

/// An operation and its copy work on one table: whatever `tables` holds for
/// that table is seen through both.
pub proof fn copy_shares_table(a: &WtOperation, b: &WtOperation, tables: &WtTables)
    requires
        b.same_as(a),
    ensures
        b.table_spec() == a.table_spec(),
        tables@.contains_key(b.table_spec()) == tables@.contains_key(a.table_spec()),
        tables@[b.table_spec()] == tables@[a.table_spec()],
{
}

/// An operation and the number of its items completed so far (inserted,
/// updated or deleted; a drop has a single item).
pub struct WtOperationState {
    pub operation: WtOperation,
    pub completed: u32,
}

impl WtOperationState {
    /// A freshly issued operation: nothing completed yet.
    pub fn new(operation: WtOperation) -> (r: WtOperationState)
        ensures
            r.operation == operation,
            r.completed == 0,
    {
        WtOperationState { operation, completed: 0 }
    }
}

} // verus!
