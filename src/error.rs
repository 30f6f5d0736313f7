use vstd::prelude::*;

verus! {

/// What a store operation can fail with.
pub enum StoreError {
    /// The data directory of the application could not be resolved.
    Config(String),
    /// No canvas document is stored under the requested id.
    CanvasNotFound,
    /// No image file is stored under the requested name.
    ImageNotFound,
    /// A stored document or a supplied body is not well-formed; the text says why.
    Parse(String),
    /// A write, create or remove failed; the text says why.
    Io(String),
    /// A resolved path cannot be written as text.
    InvalidPath,
}

pub open spec fn canvas_not_found_text() -> Seq<char> {
    seq!['C', 'a', 'n', 'v', 'a', 's', ' ', 'n', 'o', 't', ' ', 'f', 'o', 'u', 'n', 'd']
}

pub open spec fn image_not_found_text() -> Seq<char> {
    seq!['I', 'm', 'a', 'g', 'e', ' ', 'n', 'o', 't', ' ', 'f', 'o', 'u', 'n', 'd']
}

pub open spec fn invalid_path_text() -> Seq<char> {
    seq!['I', 'n', 'v', 'a', 'l', 'i', 'd', ' ', 'p', 'a', 't', 'h']
}

impl StoreError {
    /// The text shown to the user for this error.
    pub open spec fn text(&self) -> Seq<char> {
        match self {
            StoreError::Config(m) => m@,
            StoreError::CanvasNotFound => canvas_not_found_text(),
            StoreError::ImageNotFound => image_not_found_text(),
            StoreError::Parse(m) => m@,
            StoreError::Io(m) => m@,
            StoreError::InvalidPath => invalid_path_text(),
        }
    }

    /// The human-readable message of this error.
    pub fn message(&self) -> (r: String)
        ensures
            r@ == self.text(),
    {
        match self {
            StoreError::Config(m) => m.clone(),
            StoreError::CanvasNotFound => {
                proof {
                    reveal_strlit("Canvas not found");
                }
                String::from_str("Canvas not found")
            },
            StoreError::ImageNotFound => {
                proof {
                    reveal_strlit("Image not found");
                }
                String::from_str("Image not found")
            },
            StoreError::Parse(m) => m.clone(),
            StoreError::Io(m) => m.clone(),
            StoreError::InvalidPath => {
                proof {
                    reveal_strlit("Invalid path");
                }
                String::from_str("Invalid path")
            },
        }
    }
}

/// `prefix` followed by `detail`, the shape of every message that wraps a cause.
pub fn prefixed(prefix: &str, detail: &str) -> (r: String)
    ensures
        r@ == prefix@ + detail@,
{
    let mut s = String::from_str(prefix);
    s.append(detail);
    s
}

} // verus!
