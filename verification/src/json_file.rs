//! The store: whole-collection load and save plus derived single-item
//! get/save/delete, generic over the item through the opaque JSON value
//! type. Every operation works over the backing file's *content*: the
//! caller reads the file and hands in the text (or the read failure), and
//! the mutating operations hand back the full text to write over the file.

use vstd::prelude::*;

use crate::collection::Collection;
use crate::json::{parse_entries, parse_store, pretty_text, serialize_entries};
use vstd::set::axiom_set_insert_len;

verus! {

/// Why a store operation failed. Each variant carries the human-readable
/// description handed to callers.
#[derive(Debug)]
pub enum StoreError {
    /// The backing file could not be opened, read or written.
    IOError(String),
    /// The content did not deserialize into the expected mapping shape, or
    /// an in-memory value failed to serialize.
    FormatError(String),
    /// No item is stored at the requested identifier; carries the
    /// identifier.
    NotFoundError(String),
}

/// What loading makes of the backing file's content: the parsed mapping
/// where the read succeeded and the text holds a JSON object, nothing
/// otherwise. An empty, absent or unparsable file loads as `None`.
pub open spec fn loaded_map(read: Result<String, String>) -> Option<
    Map<Seq<char>, serde_json::Value>,
> {
    match read {
        Ok(s) => parse_store(s@),
        Err(_) => None,
    }
}

/// The mapping the self-healing writes start from: the loaded mapping, or
/// the empty one where the load failed in any way.
pub open spec fn base_map(read: Result<String, String>) -> Map<Seq<char>, serde_json::Value> {
    match loaded_map(read) {
        Some(m) => m,
        None => Map::empty(),
    }
}

/// Loads the complete collection from the backing file's content.
///
/// `read` is what reading the file produced: its full text, or the
/// description of the failure to open or read it. A read failure surfaces
/// as `IOError`; text that is not a JSON object — the empty text of a
/// freshly created file included — surfaces as `FormatError`, never as an
/// empty collection.
pub fn get_all(read: Result<String, String>) -> (r: Result<Collection, StoreError>)
    ensures
        r is Ok <==> loaded_map(read) is Some,
        r matches Ok(c) ==> Some(c@) == loaded_map(read),
        r matches Ok(c) ==> c@.dom().finite(),
        read matches Err(m) ==> r == Result::<Collection, StoreError>::Err(StoreError::IOError(m)),
        (read matches Ok(s) && parse_store(s@) is None) ==> (r matches Err(e) && e is FormatError),
        (read matches Ok(s) && s@.len() == 0) ==> (r matches Err(e) && e is FormatError),
{
    match read {
        Ok(s) => match parse_entries(s.as_str()) {
            Ok(entries) => {
                let c = Collection::from_entries(entries);
                proof {
                    c.lemma_view_finite();
                }
                Ok(c)
            },
            Err(m) => Err(StoreError::FormatError(m)),
        },
        Err(m) => Err(StoreError::IOError(m)),
    }
}

/// Serializes the complete mapping, human-readably; the text returned is
/// what the caller writes over the backing file's prior content.
///
/// The produced text is read back once before it is returned, so on `Ok`
/// it is known to parse to exactly the mapping serialized; the operation
/// fails — as a format error — exactly where that read-back does, which a
/// mapping of ordinary nesting never reaches.
pub fn save_all(tasks: &Collection) -> (r: Result<String, StoreError>)
    ensures
        r is Ok <==> parse_store(pretty_text(tasks@)) is Some,
        r matches Ok(s) ==> s@ == pretty_text(tasks@),
        r matches Ok(s) ==> parse_store(s@) == Some(tasks@),
        r matches Err(e) ==> e is FormatError,
{
    let text = match serialize_entries(tasks.items()) {
        Ok(s) => s,
        Err(m) => {
            return Err(StoreError::FormatError(m));
        },
    };
    match parse_entries(text.as_str()) {
        Ok(_) => Ok(text),
        Err(m) => Err(StoreError::FormatError(m)),
    }
}

/// The item stored at `id`: loads the complete collection, then looks the
/// identifier up.
///
/// Load failures propagate unchanged; a loaded mapping without `id` gives
/// `NotFoundError` carrying the identifier.
pub fn get_one(read: Result<String, String>, id: &str) -> (r: Result<
    serde_json::Value,
    StoreError,
>)
    ensures
        r is Ok <==> (loaded_map(read) matches Some(m) && m.contains_key(id@)),
        r matches Ok(v) ==> v == base_map(read)[id@],
        read matches Err(m) ==> r == Result::<serde_json::Value, StoreError>::Err(
            StoreError::IOError(m),
        ),
        (read matches Ok(s) && parse_store(s@) is None) ==> (r matches Err(e) && e is FormatError),
        (loaded_map(read) matches Some(m) && !m.contains_key(id@)) ==> (r matches Err(e)
            && e matches StoreError::NotFoundError(missing) && missing@ == id@),
{
    let tasks = match get_all(read) {
        Ok(t) => t,
        Err(e) => {
            return Err(e);
        },
    };
    match tasks.get(id) {
        Some(t) => Ok(t.clone()),
        None => Err(StoreError::NotFoundError(id.to_owned())),
    }
}

/// Upserts `task` at `id` and returns the full new content to persist.
///
/// This is the one place — with [`delete_one`] — where a failed load is
/// treated as the empty collection: whatever kept the prior content from
/// loading, the write starts from empty rather than failing. The operation
/// fails — as a format error — exactly where [`save_all`] does on the
/// upserted mapping.
pub fn save_one(read: Result<String, String>, id: &str, task: &serde_json::Value) -> (r: Result<
    String,
    StoreError,
>)
    ensures
        r is Ok <==> parse_store(pretty_text(base_map(read).insert(id@, *task))) is Some,
        r matches Ok(s) ==> s@ == pretty_text(base_map(read).insert(id@, *task)),
        r matches Ok(s) ==> parse_store(s@) == Some(base_map(read).insert(id@, *task)),
        r matches Err(e) ==> e is FormatError,
        base_map(read).dom().finite(),
{
    let mut tasks = match get_all(read) {
        Ok(t) => t,
        Err(_) => Collection::new(),
    };
    tasks.insert(id.to_owned(), task.clone());
    save_all(&tasks)
}

/// Removes the entry at `id`, if any, and returns the full new content to
/// persist; an absent `id` is a no-op, not an error.
///
/// Same load-fallback-to-empty policy as [`save_one`]; fails — as a format
/// error — exactly where [`save_all`] does on the shrunk mapping.
pub fn delete_one(read: Result<String, String>, id: &str) -> (r: Result<String, StoreError>)
    ensures
        r is Ok <==> parse_store(pretty_text(base_map(read).remove(id@))) is Some,
        r matches Ok(s) ==> s@ == pretty_text(base_map(read).remove(id@)),
        r matches Ok(s) ==> parse_store(s@) == Some(base_map(read).remove(id@)),
        r matches Err(e) ==> e is FormatError,
        base_map(read).dom().finite(),
{
    let mut tasks = match get_all(read) {
        Ok(t) => t,
        Err(_) => Collection::new(),
    };
    tasks.remove(id);
    save_all(&tasks)
}

/// Round trip: content that a successful whole-collection save produced
/// loads back, through a successful read, to exactly the mapping that was
/// saved, keys and item content alike.
pub proof fn lemma_save_all_load_all_round_trip(
    m: Map<Seq<char>, serde_json::Value>,
    saved: String,
)
    requires
        parse_store(saved@) == Some(m),
    ensures
        loaded_map(Result::<String, String>::Ok(saved)) == Some(m),
{
}

/// Upsert idempotence: a second save of the same item at the same
/// identifier, starting from the content the first save produced, persists
/// exactly the mapping the first save persisted — and, the content being
/// the text that save wrote, the second save is owed success too.
pub proof fn lemma_save_one_idempotent(
    read: Result<String, String>,
    id: Seq<char>,
    task: serde_json::Value,
    saved: String,
)
    requires
        parse_store(saved@) == Some(base_map(read).insert(id, task)),
    ensures
        base_map(Result::<String, String>::Ok(saved)).insert(id, task) == base_map(read).insert(
            id,
            task,
        ),
        saved@ == pretty_text(base_map(read).insert(id, task)) ==> parse_store(
            pretty_text(base_map(Result::<String, String>::Ok(saved)).insert(id, task)),
        ) is Some,
{
    assert(base_map(Result::<String, String>::Ok(saved)).insert(id, task) =~= base_map(
        read,
    ).insert(id, task));
}

/// Overwrite: saving `y` at an identifier where `x` was just saved persists
/// a mapping holding `y` there, with its size unchanged by the second save
/// since the identifier already pre-existed. The finiteness hypothesis is
/// what [`save_one`]'s own contract gives of any mapping it starts from.
pub proof fn lemma_save_one_overwrites(
    read: Result<String, String>,
    id: Seq<char>,
    x: serde_json::Value,
    y: serde_json::Value,
    saved: String,
)
    requires
        parse_store(saved@) == Some(base_map(read).insert(id, x)),
        base_map(read).dom().finite(),
    ensures
        base_map(Result::<String, String>::Ok(saved)).insert(id, y) == base_map(read).insert(
            id,
            y,
        ),
        base_map(Result::<String, String>::Ok(saved)).insert(id, y)[id] == y,
        base_map(Result::<String, String>::Ok(saved)).insert(id, y).len() == base_map(
            Result::<String, String>::Ok(saved),
        ).len(),
{
    let first = base_map(Result::<String, String>::Ok(saved));
    assert(first.insert(id, y) =~= base_map(read).insert(id, y));
    assert(first.contains_key(id));
    axiom_set_insert_len(first.dom(), id);
    assert(first.insert(id, y).dom() =~= first.dom().insert(id));
}

/// Missing key: deleting an identifier the loaded mapping does not hold
/// persists that mapping unchanged — and, where the content is the text a
/// save of that mapping wrote, the delete is owed success. (That fetching
/// such an identifier fails with `NotFoundError` is part of [`get_one`]'s
/// contract.)
pub proof fn lemma_delete_absent_is_noop(read: Result<String, String>, id: Seq<char>)
    requires
        !base_map(read).contains_key(id),
    ensures
        base_map(read).remove(id) == base_map(read),
        (read matches Ok(saved) && loaded_map(read) is Some && saved@ == pretty_text(
            base_map(read),
        )) ==> parse_store(pretty_text(base_map(read).remove(id))) is Some,
{
    assert(base_map(read).remove(id) =~= base_map(read));
}

/// Fresh-file bootstrap: with no loadable prior content — no backing file,
/// or one whose text is not yet a JSON object — a save of one item persists
/// the mapping whose sole entry is that item.
pub proof fn lemma_fresh_save_one(
    read: Result<String, String>,
    id: Seq<char>,
    task: serde_json::Value,
    saved: String,
)
    requires
        loaded_map(read) is None,
        parse_store(saved@) == Some(base_map(read).insert(id, task)),
    ensures
        parse_store(saved@) matches Some(m) && m == Map::empty().insert(id, task)
            && m.contains_key(id) && m[id] == task && m.len() == 1,
{
    let m = Map::<Seq<char>, serde_json::Value>::empty().insert(id, task);
    axiom_set_insert_len(Map::<Seq<char>, serde_json::Value>::empty().dom(), id);
    assert(m.dom() =~= Map::<Seq<char>, serde_json::Value>::empty().dom().insert(id));
}

} // verus!
