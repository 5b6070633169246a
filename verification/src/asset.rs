//! Plain asset values: a shareable string cell for hot-reloaded text data,
//! and the value types an asset pipeline hands to tasks.
use vstd::prelude::*;

verus! {

use vstd::rwlock::RwLock;
use vstd::rwlock::RwLockPredicate;

/// A shared, lock-guarded string: every clone is a handle on the same cell,
/// so a stored value is visible through every handle.  Because the cell is
/// shared, no single handle can pin down what a later read returns.
pub struct AtomicString {
    inner: std::sync::Arc<RwLock<String, spec_fn(String) -> bool>>,
}

/// Relies on `std::sync::Arc::clone`: a clone is another handle on the same
/// allocation, which Verus identifies with the same value.
#[verifier::external_body]
fn clone_cell(cell: &std::sync::Arc<RwLock<String, spec_fn(String) -> bool>>) -> (r:
    std::sync::Arc<RwLock<String, spec_fn(String) -> bool>>)
    ensures
        r == *cell,
{
    std::sync::Arc::clone(cell)
}

impl Clone for AtomicString {
    /// A clone is another handle on the same cell.
    fn clone(&self) -> (r: Self) {
        proof {
            use_type_invariant(&*self);
        }
        AtomicString { inner: clone_cell(&self.inner) }
    }
}

impl AtomicString {
    /// The cell accepts every string.
    #[verifier::type_invariant]
    spec fn wf(self) -> bool {
        forall|v: String| #[trigger] (*self.inner).pred().inv(v)
    }

    /// A fresh cell holding `s`.
    pub fn new(s: String) -> Self {
        AtomicString { inner: std::sync::Arc::new(RwLock::new(s, Ghost(|v: String| true))) }
    }

    /// A copy of the value currently in the cell.
    pub fn get(&self) -> String {
        let read_handle = self.inner.acquire_read();
        let value = read_handle.borrow().clone();
        read_handle.release_read();
        value
    }

    /// Replaces the value in the cell, for every handle at once.
    pub fn store(&self, new_value: String) {
        proof {
            use_type_invariant(&*self);
        }
        let (_, write_handle) = self.inner.acquire_write();
        write_handle.release_write(new_value);
    }
}

/// A hot-reload notification about one asset file.
#[derive(Clone)]
pub enum AssetEvent {
    Modified(String),
    Removed(String),
}

/// The encodings an image asset may arrive in.
#[derive(Clone, Copy)]
pub enum ImageType {
    Png,
    Jpeg,
    Webm,
}

/// A decoded image asset.
#[derive(Clone, Copy)]
pub struct Image {
    img_type: ImageType,
}

/// The payload of one loaded asset.
#[derive(Clone)]
pub enum FileData {
    TxtData(AtomicString),
    ImgData(Image),
}

/// A loader that fetches assets from a remote base address; the fetching
/// itself lives outside the core.
pub struct WebLoader {
    base_url: String,
}

impl WebLoader {
    /// The base address fetches are made against.
    pub closed spec fn base(self) -> Seq<char> {
        self.base_url@
    }

    pub fn new(base_url: String) -> (r: Self)
        ensures
            r.base() == base_url@,
    {
        WebLoader { base_url }
    }
}

} // verus!
