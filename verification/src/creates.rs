//! The item factory: builds a typed task for a title and a status, persists
//! it through the store under the title as identifier, and returns the
//! tagged variant.

use vstd::prelude::*;

use crate::collection::entries_map;
use crate::json::{make_object_value, make_string_value, object_value, parse_store, pretty_text,
    string_value};
use crate::json_file::{base_map, loaded_map, save_one, StoreError};

verus! {

/// The status a task is created with.
#[allow(non_camel_case_types)]
#[derive(Clone, Copy, PartialEq, Eq, Structural, Debug)]
pub enum TaskStatus {
    PENDING,
    DONE,
}

impl TaskStatus {
    /// The text naming the status.
    pub open spec fn text_spec(self) -> Seq<char> {
        match self {
            TaskStatus::PENDING => "PENDING"@,
            TaskStatus::DONE => "DONE"@,
        }
    }

    /// The status's name.
    pub fn text(&self) -> (r: String)
        ensures
            r@ == self.text_spec(),
    {
        match self {
            TaskStatus::PENDING => "PENDING".to_owned(),
            TaskStatus::DONE => "DONE".to_owned(),
        }
    }
}

/// The payload both task variants share.
#[derive(Debug)]
pub struct Base {
    pub title: String,
    pub status: TaskStatus,
}

impl Base {
    /// A payload with the given title and status.
    pub fn new(title: &str, status: TaskStatus) -> (r: Base)
        ensures
            r.title@ == title@,
            r.status == status,
    {
        Base { title: title.to_owned(), status }
    }
}

/// A task still waiting to be done.
#[derive(Debug)]
pub struct Pending {
    pub super_struct: Base,
}

impl Pending {
    /// A pending task with the given title.
    pub fn new(title: &str) -> (r: Pending)
        ensures
            r.super_struct.title@ == title@,
            r.super_struct.status == TaskStatus::PENDING,
    {
        Pending { super_struct: Base::new(title, TaskStatus::PENDING) }
    }
}

/// A task already done.
#[derive(Debug)]
pub struct Done {
    pub super_struct: Base,
}

impl Done {
    /// A done task with the given title.
    pub fn new(title: &str) -> (r: Done)
        ensures
            r.super_struct.title@ == title@,
            r.super_struct.status == TaskStatus::DONE,
    {
        Done { super_struct: Base::new(title, TaskStatus::DONE) }
    }
}

/// A created task, tagged with its status.
#[derive(Debug)]
pub enum ItemTypes {
    Done(Done),
    Pending(Pending),
}

impl ItemTypes {
    /// The title of the task inside, whatever the variant.
    pub open spec fn title_spec(self) -> Seq<char> {
        match self {
            ItemTypes::Done(done) => done.super_struct.title@,
            ItemTypes::Pending(pending) => pending.super_struct.title@,
        }
    }

    /// How either variant renders: the item's title text alone, independent
    /// of status.
    pub fn display_text(&self) -> (r: String)
        ensures
            r@ == self.title_spec(),
    {
        match self {
            ItemTypes::Done(done) => done.super_struct.title.clone(),
            ItemTypes::Pending(pending) => pending.super_struct.title.clone(),
        }
    }
}

/// The JSON form a created item is persisted in: an object holding the
/// shared payload, its title and its status name.
pub open spec fn item_json(title: Seq<char>, status: TaskStatus) -> serde_json::Value {
    object_value(
        Map::<Seq<char>, serde_json::Value>::empty().insert("title"@, string_value(title)).insert(
            "status"@,
            string_value(status.text_spec()),
        ),
    )
}

/// The persisted form of a created item, built field by field.
fn make_item_value(title: &str, status: TaskStatus) -> (r: serde_json::Value)
    ensures
        r == item_json(title@, status),
{
    let mut fields: Vec<(String, serde_json::Value)> = Vec::new();
    fields.push(("title".to_owned(), make_string_value(title.to_owned())));
    fields.push(("status".to_owned(), make_string_value(status.text())));
    proof {
        reveal_strlit("title");
        reveal_strlit("status");
        let f = fields@;
        assert(("title"@).len() == 5);
        assert(("status"@).len() == 6);
        assert(f[0].0@ == "title"@ && f[1].0@ == "status"@);
        assert forall|i: int, j: int| 0 <= i < j < f.len() implies f[i].0@ != f[j].0@ by {
            assert(i == 0 && j == 1);
        }
        let e0 = Seq::<(String, serde_json::Value)>::empty();
        assert(f.drop_last().drop_last() =~= e0);
        assert(f.drop_last().last() == f[0]);
        assert(f.last() == f[1]);
        assert(entries_map(e0) == Map::<Seq<char>, serde_json::Value>::empty());
        assert(entries_map(f.drop_last()) == entries_map(f.drop_last().drop_last()).insert(
            f.drop_last().last().0@,
            f.drop_last().last().1,
        ));
        assert(entries_map(f) == entries_map(f.drop_last()).insert(f.last().0@, f.last().1));
        assert(entries_map(f) == Map::<Seq<char>, serde_json::Value>::empty().insert(
            "title"@,
            string_value(title@),
        ).insert("status"@, string_value(status.text_spec())));
    }
    make_object_value(fields)
}

/// Builds the item for `title`, persists it through the store under the
/// title as identifier, and returns the variant matching `status` together
/// with the new file content the save produced.
///
/// `read` is what reading the backing file produced, as for [`save_one`];
/// failures of the save propagate unchanged. On success the constructed
/// in-memory item is returned, with no re-read of what was persisted.
pub fn create(read: Result<String, String>, title: &str, status: TaskStatus) -> (r: Result<
    (ItemTypes, String),
    StoreError,
>)
    ensures
        r is Ok <==> parse_store(
            pretty_text(base_map(read).insert(title@, item_json(title@, status))),
        ) is Some,
        r matches Ok((item, saved)) ==> parse_store(saved@) == Some(
            base_map(read).insert(title@, item_json(title@, status)),
        ),
        r matches Ok((item, saved)) ==> item.title_spec() == title@,
        r matches Ok((item, saved)) ==> (status == TaskStatus::PENDING ==> (item matches
            ItemTypes::Pending(p) && p.super_struct.status == TaskStatus::PENDING)),
        r matches Ok((item, saved)) ==> (status == TaskStatus::DONE ==> (item matches
            ItemTypes::Done(d) && d.super_struct.status == TaskStatus::DONE)),
        r matches Err(e) ==> e is FormatError,
{
    let value = make_item_value(title, status);
    let saved = match save_one(read, title, &value) {
        Ok(s) => s,
        Err(e) => {
            return Err(e);
        },
    };
    match status {
        TaskStatus::PENDING => Ok((ItemTypes::Pending(Pending::new(title)), saved)),
        TaskStatus::DONE => Ok((ItemTypes::Done(Done::new(title)), saved)),
    }
}

/// A created item can be fetched back: the content a successful `create`
/// persisted holds the created item's JSON form at the title, so a
/// following fetch of that identifier returns it.
pub proof fn lemma_create_then_get(
    read: Result<String, String>,
    title: Seq<char>,
    status: TaskStatus,
    saved: String,
)
    requires
        parse_store(saved@) == Some(base_map(read).insert(title, item_json(title, status))),
    ensures
        loaded_map(Result::<String, String>::Ok(saved)) matches Some(m) && m.contains_key(title)
            && m[title] == item_json(title, status),
{
}

} // verus!
