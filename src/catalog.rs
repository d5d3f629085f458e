//! The catalog: one document per directory entry, in the order the directory listed them,
//! with the selection cursor over it.
use vstd::prelude::*;
use crate::cursor::{in_range, next_sel, prev_sel};
use crate::dispatch::{viewer_for, viewer_of, OpenRequest};
use crate::error::BrowseError;
use crate::metadata::Metadata;
use crate::text::{ascii_lower_seq, to_ascii_lowercase};

verus! {

/// The last `.` among the first `k` characters of `s`.
pub open spec fn last_dot(s: Seq<char>, k: int) -> Option<int>
    decreases k,
{
    if k <= 0 {
        None
    } else if s[k - 1] == '.' {
        Some(k - 1)
    } else {
        last_dot(s, k - 1)
    }
}

/// Where a file name splits into stem and extension: at its last `.`, unless that `.`
/// is the first character (a hidden file such as `.profile` has no extension).
pub open spec fn dot_split(s: Seq<char>) -> Option<int> {
    match last_dot(s, s.len() as int) {
        Some(i) => if i > 0 {
            Some(i)
        } else {
            None
        },
        None => None,
    }
}

/// The display name: the file name without its extension.
pub open spec fn stem(s: Seq<char>) -> Seq<char> {
    match dot_split(s) {
        Some(i) => s.subrange(0, i),
        None => s,
    }
}

/// The extension as written, empty where the name has none.
pub open spec fn extension(s: Seq<char>) -> Seq<char> {
    match dot_split(s) {
        Some(i) => s.subrange(i + 1, s.len() as int),
        None => Seq::empty(),
    }
}

/// The placeholder shown as every document's year.
pub open spec fn year_placeholder() -> Seq<char> {
    "1984"@
}

/// One entry of the catalog. Built once, never changed.
pub struct Document {
    pub path: String,
    pub name: String,
    pub ext: String,
    pub author: String,
    pub year: String,
    pub total_pages: String,
}

/// What the directory listing and the metadata tool gave for one entry.
pub struct CatalogEntry {
    pub path: String,
    pub file_name: String,
    pub metadata: Metadata,
}

/// The document built from an entry.
pub open spec fn document_of(d: Document, e: CatalogEntry) -> bool {
    &&& d.path@ == e.path@
    &&& d.name@ == stem(e.file_name@)
    &&& d.ext@ == ascii_lower_seq(extension(e.file_name@))
    &&& d.author@ == e.metadata.author@
    &&& d.total_pages@ == e.metadata.total_pages@
    &&& d.year@ == year_placeholder()
}

fn dot_split_of(s: &str) -> (r: Option<usize>)
    ensures
        match r {
            Some(i) => dot_split(s@) == Some(i as int) && 0 < i < s@.len(),
            None => dot_split(s@) is None,
        },
{
    let n = s.unicode_len();
    let mut k: usize = n;
    while k > 0 && s.get_char(k - 1) != '.'
        invariant
            n == s@.len(),
            k <= n,
            last_dot(s@, n as int) == last_dot(s@, k as int),
        decreases k,
    {
        k = k - 1;
    }
    if k > 1 {
        Some(k - 1)
    } else {
        None
    }
}

/// Splits a file name into its display name and its extension as written.
pub fn split_file_name(file_name: &str) -> (r: (String, String))
    ensures
        r.0@ == stem(file_name@),
        r.1@ == extension(file_name@),
{
    match dot_split_of(file_name) {
        Some(i) => {
            let n = file_name.unicode_len();
            (
                String::from_str(file_name.substring_char(0, i)),
                String::from_str(file_name.substring_char(i + 1, n)),
            )
        },
        None => (String::from_str(file_name), String::new()),
    }
}

/// The display names of the entries of a directory, in the order of its listing.
pub fn get_files_from_dir(file_names: &Vec<String>) -> (r: Vec<String>)
    ensures
        r@.len() == file_names@.len(),
        forall|i: int| 0 <= i < r@.len() ==> r@[i]@ == stem(file_names@[i]@),
{
    let mut names: Vec<String> = Vec::new();
    let mut i: usize = 0;
    while i < file_names.len()
        invariant
            i <= file_names@.len(),
            names@.len() == i,
            forall|k: int| 0 <= k < i ==> names@[k]@ == stem(file_names@[k]@),
        decreases file_names@.len() - i,
    {
        let (name, _ext) = split_file_name(file_names[i].as_str());
        names.push(name);
        i = i + 1;
    }
    names
}

impl Document {
    /// The document for one directory entry: display name and lower-cased extension from
    /// its file name, author and page count from the metadata.
    pub fn new(entry: &CatalogEntry) -> (r: Document)
        ensures
            document_of(r, *entry),
    {
        let (name, ext) = split_file_name(entry.file_name.as_str());
        Document {
            path: entry.path.clone(),
            name,
            ext: to_ascii_lowercase(ext.as_str()),
            author: entry.metadata.author.clone(),
            year: String::from_str("1984"),
            total_pages: entry.metadata.total_pages.clone(),
        }
    }
}

/// The catalog and its cursor.
pub struct Documents {
    items: Vec<Document>,
    selected: Option<usize>,
}

impl Documents {
    /// The documents, in catalog order.
    pub closed spec fn docs(&self) -> Seq<Document> {
        self.items@
    }

    /// The cursor: an index into `docs()`, or none.
    pub closed spec fn selection(&self) -> Option<int> {
        match self.selected {
            Some(i) => Some(i as int),
            None => None,
        }
    }

    /// The cursor is absent or on a document.
    pub open spec fn wf(&self) -> bool {
        in_range(self.selection(), self.docs().len() as int)
    }

    /// The catalog of the given entries, in their order; the cursor on the first
    /// document, or absent where there is none.
    pub fn new(entries: &Vec<CatalogEntry>) -> (r: Documents)
        ensures
            r.wf(),
            r.docs().len() == entries@.len(),
            forall|i: int| 0 <= i < entries@.len() ==> document_of(#[trigger] r.docs()[i], entries@[i]),
            r.selection() == (if entries@.len() > 0 { Some(0int) } else { None::<int> }),
    {
        let mut items: Vec<Document> = Vec::new();
        let mut i: usize = 0;
        while i < entries.len()
            invariant
                i <= entries@.len(),
                items@.len() == i,
                forall|k: int| 0 <= k < i ==> document_of(#[trigger] items@[k], entries@[k]),
            decreases entries@.len() - i,
        {
            let d = Document::new(&entries[i]);
            items.push(d);
            i = i + 1;
        }
        let selected = if items.len() > 0 { Some(0) } else { None };
        Documents { items, selected }
    }

    pub fn len(&self) -> (r: usize)
        ensures
            r == self.docs().len(),
    {
        self.items.len()
    }

    /// The document at index `i`.
    pub fn get(&self, i: usize) -> (r: &Document)
        requires
            i < self.docs().len(),
        ensures
            *r == self.docs()[i as int],
    {
        &self.items[i]
    }

    /// The cursor.
    pub fn selected(&self) -> (r: Option<usize>)
        ensures
            match r {
                Some(i) => self.selection() == Some(i as int),
                None => self.selection() is None,
            },
    {
        self.selected
    }

    /// Moves the cursor one document on, from the last back to the first; from no
    /// selection to the first. An empty catalog is left as it is.
    pub fn next(&mut self) -> (r: Result<(), BrowseError>)
        requires
            old(self).wf(),
        ensures
            final(self).wf(),
            final(self).docs() == old(self).docs(),
            old(self).docs().len() == 0 ==> r == Err::<(), BrowseError>(BrowseError::EmptyCatalog)
                && final(self).selection() is None,
            old(self).docs().len() > 0 ==> r is Ok && final(self).selection() == next_sel(
                old(self).selection(),
                old(self).docs().len() as int,
            ),
    {
        let n = self.items.len();
        if n == 0 {
            return Err(BrowseError::EmptyCatalog);
        }
        let i = match self.selected {
            Some(i) => if i + 1 == n {
                0
            } else {
                i + 1
            },
            None => 0,
        };
        proof {
            if let Some(j) = self.selected {
                if j + 1 < n {
                    vstd::arithmetic::div_mod::lemma_small_mod((j + 1) as nat, n as nat);
                } else {
                    vstd::arithmetic::div_mod::lemma_mod_self_0(n as int);
                }
            }
        }
        self.selected = Some(i);
        Ok(())
    }

    /// Moves the cursor one document back, from the first to the last; from no
    /// selection to the first. An empty catalog is left as it is.
    pub fn prev(&mut self) -> (r: Result<(), BrowseError>)
        requires
            old(self).wf(),
        ensures
            final(self).wf(),
            final(self).docs() == old(self).docs(),
            old(self).docs().len() == 0 ==> r == Err::<(), BrowseError>(BrowseError::EmptyCatalog)
                && final(self).selection() is None,
            old(self).docs().len() > 0 ==> r is Ok && final(self).selection() == prev_sel(
                old(self).selection(),
                old(self).docs().len() as int,
            ),
    {
        let n = self.items.len();
        if n == 0 {
            return Err(BrowseError::EmptyCatalog);
        }
        let i = match self.selected {
            Some(i) => if i == 0 {
                n - 1
            } else {
                i - 1
            },
            None => 0,
        };
        proof {
            if let Some(j) = self.selected {
                if j == 0 {
                    vstd::arithmetic::div_mod::lemma_mod_add_multiples_vanish(-1, n as int);
                    vstd::arithmetic::div_mod::lemma_small_mod((n - 1) as nat, n as nat);
                } else {
                    vstd::arithmetic::div_mod::lemma_small_mod((j - 1) as nat, n as nat);
                }
            }
        }
        self.selected = Some(i);
        Ok(())
    }

    /// Clears the cursor.
    pub fn unselect(&mut self)
        ensures
            final(self).wf(),
            final(self).docs() == old(self).docs(),
            final(self).selection() is None,
    {
        self.selected = None;
    }

    /// What opening the selected document takes: the viewer its extension calls for, and
    /// its path. Nothing where no document is selected.
    pub fn open(&self) -> (r: Option<OpenRequest>)
        requires
            self.wf(),
        ensures
            self.selection() is None ==> r is None,
            self.selection() is Some ==> r is Some,
            r is Some ==> ({
                let d = self.docs()[self.selection().unwrap()];
                r.unwrap().path@ == d.path@ && r.unwrap().viewer == viewer_of(d.ext@)
            }),
    {
        match self.selected {
            Some(i) => {
                let d = &self.items[i];
                Some(OpenRequest { viewer: viewer_for(d.ext.as_str()), path: d.path.clone() })
            },
            None => None,
        }
    }
}

} // verus!
