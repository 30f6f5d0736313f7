use vstd::prelude::*;

verus! {

/// `seg` appended to the path `base`, as a path push does on a Unix system:
/// an absolute `seg` replaces `base`, and a separator is put between the two
/// unless `base` is empty or already ends in one.
pub open spec fn join(base: Seq<char>, seg: Seq<char>) -> Seq<char> {
    if seg.len() > 0 && seg[0] == '/' {
        seg
    } else if base.len() == 0 || base.last() == '/' {
        base + seg
    } else {
        base + seq!['/'] + seg
    }
}

pub open spec fn storage_name() -> Seq<char> {
    seq!['s', 't', 'o', 'r', 'a', 'g', 'e']
}

pub open spec fn canvases_name() -> Seq<char> {
    seq!['c', 'a', 'n', 'v', 'a', 's', 'e', 's']
}

pub open spec fn images_name() -> Seq<char> {
    seq!['i', 'm', 'a', 'g', 'e', 's']
}

pub open spec fn tree_file_name() -> Seq<char> {
    seq!['t', 'r', 'e', 'e', '.', 'j', 's', 'o', 'n']
}

pub open spec fn json_suffix() -> Seq<char> {
    seq!['.', 'j', 's', 'o', 'n']
}

/// The name of the file that holds the canvas `id`.
pub open spec fn canvas_file_name(id: Seq<char>) -> Seq<char> {
    id + json_suffix()
}

/// Executable form of [`join`].
pub fn join_path(base: &str, seg: &str) -> (r: String)
    ensures
        r@ == join(base@, seg@),
{
    let seg_len = seg.unicode_len();
    if seg_len > 0 && seg.get_char(0) == '/' {
        return String::from_str(seg);
    }
    let base_len = base.unicode_len();
    let mut r = String::from_str(base);
    if base_len > 0 && base.get_char(base_len - 1) == '/' {
        r.append(seg);
    } else if base_len == 0 {
        r.append(seg);
    } else {
        proof {
            reveal_strlit("/");
        }
        r.append("/");
        r.append(seg);
    }
    r
}

/// The name of the file that holds the canvas `id`: the id with `.json` appended.
pub fn canvas_file(id: &str) -> (r: String)
    ensures
        r@ == canvas_file_name(id@),
{
    proof {
        reveal_strlit(".json");
    }
    let mut r = String::from_str(id);
    r.append(".json");
    r
}

/// Where everything of one application lives on disk: a `storage` directory
/// under the application's data directory.
pub struct StorageLayout {
    pub storage_dir: String,
}

impl StorageLayout {
    /// The layout under the data directory `data_dir`.
    pub fn from_data_dir(data_dir: &str) -> (r: StorageLayout)
        ensures
            r.storage_dir@ == join(data_dir@, storage_name()),
    {
        proof {
            reveal_strlit("storage");
        }
        StorageLayout { storage_dir: join_path(data_dir, "storage") }
    }

    /// The directory of the canvas documents.
    pub fn canvases_dir(&self) -> (r: String)
        ensures
            r@ == join(self.storage_dir@, canvases_name()),
    {
        proof {
            reveal_strlit("canvases");
        }
        join_path(self.storage_dir.as_str(), "canvases")
    }

    /// The directory of the uploaded images.
    pub fn images_dir(&self) -> (r: String)
        ensures
            r@ == join(self.storage_dir@, images_name()),
    {
        proof {
            reveal_strlit("images");
        }
        join_path(self.storage_dir.as_str(), "images")
    }

    /// The hierarchy document.
    pub fn tree_file(&self) -> (r: String)
        ensures
            r@ == join(self.storage_dir@, tree_file_name()),
    {
        proof {
            reveal_strlit("tree.json");
        }
        join_path(self.storage_dir.as_str(), "tree.json")
    }

    /// The document of the canvas `id`.
    pub fn canvas_path(&self, id: &str) -> (r: String)
        ensures
            r@ == join(join(self.storage_dir@, canvases_name()), canvas_file_name(id@)),
    {
        let dir = self.canvases_dir();
        let name = canvas_file(id);
        join_path(dir.as_str(), name.as_str())
    }

    /// The stored image `filename`; the name is joined as it is given.
    pub fn image_path(&self, filename: &str) -> (r: String)
        ensures
            r@ == join(join(self.storage_dir@, images_name()), filename@),
    {
        let dir = self.images_dir();
        join_path(dir.as_str(), filename)
    }
}

} // verus!
