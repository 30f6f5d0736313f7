//! Canvas documents: creation with defaults, migration of legacy documents
//! on read, full replacement on update, and deletion.
use vstd::prelude::*;
use crate::error::{StoreError, prefixed};
use crate::sys::{new_id, now_rfc3339, is_generated_id};

verus! {

/// A canvas document. `body` is the drawing it carries (view box and
/// elements), which the store keeps exactly as it is given.
pub struct Canvas<B> {
    pub version: String,
    pub id: String,
    pub name: String,
    pub parent_id: Option<String>,
    pub created: String,
    pub modified: String,
    pub body: B,
}

/// The mathematical value of a [`Canvas`].
pub ghost struct CanvasView<B> {
    pub version: Seq<char>,
    pub id: Seq<char>,
    pub name: Seq<char>,
    pub parent_id: Option<Seq<char>>,
    pub created: Seq<char>,
    pub modified: Seq<char>,
    pub body: B,
}

pub open spec fn opt_view(s: Option<String>) -> Option<Seq<char>> {
    match s {
        Some(t) => Some(t@),
        None => None,
    }
}

impl<B> View for Canvas<B> {
    type V = CanvasView<B>;

    open spec fn view(&self) -> CanvasView<B> {
        CanvasView {
            version: self.version@,
            id: self.id@,
            name: self.name@,
            parent_id: opt_view(self.parent_id),
            created: self.created@,
            modified: self.modified@,
            body: self.body,
        }
    }
}

/// The schema version that every document has once the store has handled it.
pub open spec fn current_version() -> Seq<char> {
    seq!['1', '.', '0', '.', '0']
}

/// The name of a canvas created without one.
pub open spec fn default_name() -> Seq<char> {
    seq!['N', 'e', 'w', ' ', 'C', 'a', 'n', 'v', 'a', 's']
}

/// The id of the root canvas.
pub open spec fn root_id() -> Seq<char> {
    seq!['m', 'a', 'i', 'n']
}

/// The name of the root canvas.
pub open spec fn root_name() -> Seq<char> {
    seq!['M', 'a', 'i', 'n', ' ', 'C', 'a', 'n', 'v', 'a', 's']
}

pub open spec fn canvas_parse_prefix() -> Seq<char> {
    seq![
        'F', 'a', 'i', 'l', 'e', 'd', ' ', 't', 'o', ' ', 'p', 'a', 'r', 's', 'e', ' ', 'c', 'a',
        'n', 'v', 'a', 's', ':', ' ',
    ]
}

pub open spec fn canvas_data_parse_prefix() -> Seq<char> {
    seq![
        'F', 'a', 'i', 'l', 'e', 'd', ' ', 't', 'o', ' ', 'p', 'a', 'r', 's', 'e', ' ', 'c', 'a',
        'n', 'v', 'a', 's', ' ', 'd', 'a', 't', 'a', ':', ' ',
    ]
}

/// A freshly created document: current version, both timestamps `now`, the
/// default name where none is given.
pub open spec fn new_canvas_view<B>(
    id: Seq<char>,
    name: Option<Seq<char>>,
    parent_id: Option<Seq<char>>,
    now: Seq<char>,
    body: B,
) -> CanvasView<B> {
    CanvasView {
        version: current_version(),
        id,
        name: match name {
            Some(n) => n,
            None => default_name(),
        },
        parent_id,
        created: now,
        modified: now,
        body,
    }
}

/// A document as a read at time `now` leaves it: one without a version gets
/// the current one and is stamped `now`; any other is left as it is.
pub open spec fn migration<B>(c: CanvasView<B>, now: Seq<char>) -> CanvasView<B> {
    if c.version.len() == 0 {
        CanvasView { version: current_version(), modified: now, ..c }
    } else {
        c
    }
}

/// A supplied document as an update at time `now` stores it: stamped `now`,
/// with the current version where it has none.
pub open spec fn update_of<B>(c: CanvasView<B>, now: Seq<char>) -> CanvasView<B> {
    CanvasView {
        version: if c.version.len() == 0 {
            current_version()
        } else {
            c.version
        },
        modified: now,
        ..c
    }
}

/// Why a stored document could not be read.
pub enum ReadFailure {
    /// There is no file for the id, or it cannot be read.
    Missing,
    /// The file's content is not a canvas document; the text says why.
    Malformed(String),
}

/// A document as a read returns it, and whether it must be written back
/// because the read migrated it.
pub struct Loaded<B> {
    pub canvas: Canvas<B>,
    pub write_back: bool,
}

fn current_version_string() -> (r: String)
    ensures
        r@ == current_version(),
{
    proof {
        reveal_strlit("1.0.0");
    }
    String::from_str("1.0.0")
}

fn default_name_string() -> (r: String)
    ensures
        r@ == default_name(),
{
    proof {
        reveal_strlit("New Canvas");
    }
    let r = String::from_str("New Canvas");
    assert(r@ =~= default_name());
    r
}

/// A new document with the given id, timestamps `now` and defaults for what is not given.
pub fn new_canvas<B>(
    id: String,
    name: Option<String>,
    parent_id: Option<String>,
    now: String,
    body: B,
) -> (r: Canvas<B>)
    ensures
        r@ == new_canvas_view(id@, opt_view(name), opt_view(parent_id), now@, body),
{
    let name = match name {
        Some(n) => n,
        None => default_name_string(),
    };
    let created = now.clone();
    Canvas {
        version: current_version_string(),
        id,
        name,
        parent_id,
        created,
        modified: now,
        body,
    }
}

/// The root canvas that every storage holds: id `main`, named `Main Canvas`, no parent.
pub fn root_canvas<B>(now: String, body: B) -> (r: Canvas<B>)
    ensures
        r@ == new_canvas_view(root_id(), Some(root_name()), None, now@, body),
{
    let id = String::from_str("main");
    let name = String::from_str("Main Canvas");
    proof {
        reveal_strlit("main");
        reveal_strlit("Main Canvas");
        assert(id@ =~= root_id());
        assert(name@ =~= root_name());
    }
    new_canvas(id, Some(name), None, now, body)
}

/// The root canvas, stamped with the current time.
pub fn new_root_canvas<B>(body: B) -> (r: Canvas<B>)
    ensures
        r.created@.len() > 0,
        r@ == new_canvas_view(root_id(), Some(root_name()), None, r.created@, body),
{
    root_canvas(now_rfc3339(), body)
}

/// Creates a document under a fresh random id, stamped with the current time.
pub fn create_canvas<B>(name: Option<String>, parent_id: Option<String>, body: B) -> (r: Canvas<
    B,
>)
    ensures
        is_generated_id(r.id@),
        r.created@.len() > 0,
        r@ == new_canvas_view(r.id@, opt_view(name), opt_view(parent_id), r.created@, body),
{
    let id = new_id();
    let now = now_rfc3339();
    new_canvas(id, name, parent_id, now, body)
}

impl<B> Canvas<B> {
    /// Whether the document predates schema versions.
    pub open spec fn needs_migration(&self) -> bool {
        self.version@.len() == 0
    }

    /// Brings a document without a version to the current schema, stamped
    /// `now`; returns whether anything changed.
    pub fn migrate(&mut self, now: String) -> (changed: bool)
        ensures
            final(self)@ == migration(old(self)@, now@),
            changed == old(self).needs_migration(),
    {
        if self.version.unicode_len() == 0 {
            self.version = current_version_string();
            self.modified = now;
            true
        } else {
            false
        }
    }
}

/// The result of reading a canvas at time `now`, from what the read of its
/// file gave: a missing file is `CanvasNotFound`, a malformed one a `Parse`
/// error, and a document is migrated and marked for writing back if it was.
pub fn load_canvas<B>(read: Result<Canvas<B>, ReadFailure>, now: String) -> (r: Result<
    Loaded<B>,
    StoreError,
>)
    ensures
        match read {
            Ok(c) => r matches Ok(l) && l.canvas@ == migration(c@, now@) && l.write_back
                == c.needs_migration(),
            Err(ReadFailure::Missing) => r matches Err(StoreError::CanvasNotFound),
            Err(ReadFailure::Malformed(m)) => r matches Err(StoreError::Parse(t)) && t@
                == canvas_parse_prefix() + m@,
        },
{
    match read {
        Ok(c) => {
            let mut canvas = c;
            let write_back = canvas.migrate(now);
            Ok(Loaded { canvas, write_back })
        },
        Err(ReadFailure::Missing) => Err(StoreError::CanvasNotFound),
        Err(ReadFailure::Malformed(m)) => {
            proof {
                reveal_strlit("Failed to parse canvas: ");
            }
            Err(StoreError::Parse(prefixed("Failed to parse canvas: ", m.as_str())))
        },
    }
}

/// [`load_canvas`] at the current time, which is taken only where a
/// migration needs it.
pub fn get_canvas<B>(read: Result<Canvas<B>, ReadFailure>) -> (r: Result<Loaded<B>, StoreError>)
    ensures
        match read {
            Ok(c) => r matches Ok(l) && l.canvas@ == migration(c@, l.canvas.modified@)
                && l.write_back == c.needs_migration(),
            Err(ReadFailure::Missing) => r matches Err(StoreError::CanvasNotFound),
            Err(ReadFailure::Malformed(m)) => r matches Err(StoreError::Parse(t)) && t@
                == canvas_parse_prefix() + m@,
        },
{
    match read {
        Ok(c) => {
            if c.version.unicode_len() == 0 {
                let now = now_rfc3339();
                load_canvas(Ok(c), now)
            } else {
                let now = c.modified.clone();
                load_canvas(Ok(c), now)
            }
        },
        Err(f) => load_canvas(Err(f), String::new()),
    }
}

/// The document that an update at time `now` stores, from the parsed body
/// (or the reason it did not parse).
pub fn prepare_update<B>(parsed: Result<Canvas<B>, String>, now: String) -> (r: Result<
    Canvas<B>,
    StoreError,
>)
    ensures
        match parsed {
            Ok(c) => r matches Ok(u) && u@ == update_of(c@, now@),
            Err(m) => r matches Err(StoreError::Parse(t)) && t@ == canvas_data_parse_prefix()
                + m@,
        },
{
    match parsed {
        Ok(c) => {
            let mut c = c;
            c.modified = now;
            if c.version.unicode_len() == 0 {
                c.version = current_version_string();
            }
            Ok(c)
        },
        Err(m) => {
            proof {
                reveal_strlit("Failed to parse canvas data: ");
            }
            Err(StoreError::Parse(prefixed("Failed to parse canvas data: ", m.as_str())))
        },
    }
}

/// [`prepare_update`] at the current time.
pub fn update_canvas<B>(parsed: Result<Canvas<B>, String>) -> (r: Result<Canvas<B>, StoreError>)
    ensures
        match parsed {
            Ok(c) => r matches Ok(u) && u@ == update_of(c@, u.modified@) && u.modified@.len()
                > 0,
            Err(m) => r matches Err(StoreError::Parse(t)) && t@ == canvas_data_parse_prefix()
                + m@,
        },
{
    let now = now_rfc3339();
    prepare_update(parsed, now)
}

/// The result of a deletion, from whether the file was removed.
pub fn delete_canvas(removed: bool) -> (r: Result<bool, StoreError>)
    ensures
        removed ==> r == Ok::<bool, StoreError>(true),
        !removed ==> r matches Err(StoreError::CanvasNotFound),
{
    if removed {
        Ok(true)
    } else {
        Err(StoreError::CanvasNotFound)
    }
}

/// A created document reads back unchanged at any later time: same version,
/// name, parent, defaults and timestamps, and no write.
pub proof fn lemma_created_canvas_reads_back<B>(
    id: Seq<char>,
    name: Option<Seq<char>>,
    parent_id: Option<Seq<char>>,
    now: Seq<char>,
    body: B,
    later: Seq<char>,
)
    ensures
        ({
            let c = new_canvas_view(id, name, parent_id, now, body);
            &&& migration(c, later) == c
            &&& c.version.len() > 0
            &&& c.version == current_version()
            &&& c.id == id
            &&& c.name == (match name {
                Some(n) => n,
                None => default_name(),
            })
            &&& c.parent_id == parent_id
            &&& c.created == now
            &&& c.modified == now
            &&& c.body == body
        }),
{
}

/// Migration is idempotent: the first read of a document without a version
/// gives it the current one, and a second read changes nothing.
pub proof fn lemma_migration_idempotent<B>(c: CanvasView<B>, first: Seq<char>, second: Seq<char>)
    ensures
        migration(c, first).version == (if c.version.len() == 0 {
            current_version()
        } else {
            c.version
        }),
        migration(c, first).version.len() > 0,
        migration(migration(c, first), second) == migration(c, first),
{
}

} // verus!
