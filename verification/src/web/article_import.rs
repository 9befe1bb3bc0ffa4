//! The import of articles that the authoring software leaves in a
//! directory: which files are taken, in which order, and what is done with
//! each article.

use crate::utils::number_utils::{decimal, i64_to_string};
use crate::utils::text_utils::{is_word_in_any_case, lowercase};
use crate::web::dtos::{status_text, ImportedArticleDto, JsonStatus, JsonStatusType};
use vstd::prelude::*;
use vstd::string::StringExecFns;

verus! {

/// Extension of the files that are imported, in any case.
pub const IMPORT_EXT: &'static str = "json";

/// Size, in bytes, from which on a file is not imported: 30 MB.
pub const MAX_FILE_SIZE: u64 = 31457280;

/// Why an article could not be read from its file.
#[derive(Debug)]
pub enum ImportError {
    IOError,
    ParseError(String),
}

/// What is reported of an import error.
pub open spec fn import_error_text(error: ImportError) -> Seq<char> {
    match error {
        ImportError::IOError => "IO error"@,
        ImportError::ParseError(_) => "Parse error"@,
    }
}

impl ImportError {
    /// What is reported of the error: its kind.
    pub fn to_string(&self) -> (text: String)
        ensures
            text@ == import_error_text(*self),
    {
        match self {
            ImportError::IOError => "IO error".to_owned(),
            ImportError::ParseError(_) => "Parse error".to_owned(),
        }
    }
}

impl JsonStatus {
    /// The status that reports an import error.
    pub fn from_import_error(e: ImportError) -> (status: Self)
        ensures
            status.status@ == status_text(JsonStatusType::Error),
            status.message@ == import_error_text(e),
            status.id is None,
    {
        JsonStatus::new(JsonStatusType::Error, e.to_string().as_str())
    }
}

impl From<ImportError> for JsonStatus {
    fn from(e: ImportError) -> (status: Self) {
        JsonStatus::from_import_error(e)
    }
}

impl vstd::std_specs::convert::FromSpecImpl<ImportError> for JsonStatus {
    open spec fn obeys_from_spec() -> bool {
        false
    }

    open spec fn from_spec(e: ImportError) -> Self {
        arbitrary()
    }
}

/// Why the import service could not be set up.
#[derive(Debug, Clone, Copy, PartialEq, Eq, Structural)]
pub enum ImportOpenError {
    /// Nothing could be learnt of the import directory.
    Unreadable,
    /// The import path is no directory, or cannot be written to.
    NotWritable,
}

/// What is known of a path: whether it is read-only, and whether it is a
/// directory.
#[derive(Debug, Clone, Copy, PartialEq, Eq, Structural)]
pub struct PathFacts {
    pub read_only: bool,
    pub is_dir: bool,
}

/// The import of articles from a directory, one import at a time.
pub struct ImportService {
    import_path: String,
    is_import_locked: bool,
}

/// What a second import is told while one is running.
pub const IMPORT_RUNNING_ERROR: &'static str = "An import is already in progress";

impl ImportService {
    /// The directory that articles are imported from.
    pub closed spec fn spec_path(&self) -> Seq<char> {
        self.import_path@
    }

    /// Whether an import is running.
    pub closed spec fn spec_locked(&self) -> bool {
        self.is_import_locked
    }

    /// An import service on the directory `path`, of which the caller found
    /// out `facts`, or nothing. The path has to be a directory that can be
    /// written to.
    pub fn from(path: &str, facts: Option<PathFacts>) -> (service: Result<Self, ImportOpenError>)
        ensures
            match service {
                Ok(service) => {
                    &&& facts == Some(PathFacts { read_only: false, is_dir: true })
                    &&& service.spec_path() == path@
                    &&& !service.spec_locked()
                },
                Err(e) => match facts {
                    None => e == ImportOpenError::Unreadable,
                    Some(known) => e == ImportOpenError::NotWritable && (known.read_only
                        || !known.is_dir),
                },
            },
    {
        match facts {
            None => Err(ImportOpenError::Unreadable),
            Some(known) => {
                if !known.read_only && known.is_dir {
                    Ok(Self { import_path: path.to_owned(), is_import_locked: false })
                } else {
                    Err(ImportOpenError::NotWritable)
                }
            },
        }
    }

    /// The directory that articles are imported from.
    pub fn import_path(&self) -> (path: &str)
        ensures
            path@ == self.spec_path(),
    {
        self.import_path.as_str()
    }

    /// Locks the import unless it is locked, and says whether it was locked
    /// before.
    pub fn check_lock_set_if_unlocked(&mut self) -> (was_locked: bool)
        ensures
            was_locked == old(self).spec_locked(),
            final(self).spec_locked(),
            final(self).spec_path() == old(self).spec_path(),
    {
        let was_locked = self.is_import_locked;
        self.is_import_locked = true;
        was_locked
    }

    /// Locks the import.
    pub fn lock(&mut self)
        ensures
            final(self).spec_locked(),
            final(self).spec_path() == old(self).spec_path(),
    {
        self.is_import_locked = true;
    }

    /// Unlocks the import.
    pub fn unlock(&mut self)
        ensures
            !final(self).spec_locked(),
            final(self).spec_path() == old(self).spec_path(),
    {
        self.is_import_locked = false;
    }

    /// Begins an import: it is locked from now on. An import that finds the
    /// lock taken is refused, and changes nothing.
    pub fn begin_import(&mut self) -> (begun: Result<(), JsonStatus>)
        ensures
            final(self).spec_locked(),
            final(self).spec_path() == old(self).spec_path(),
            match begun {
                Ok(_) => !old(self).spec_locked(),
                Err(status) => {
                    &&& old(self).spec_locked()
                    &&& status.status@ == status_text(JsonStatusType::Error)
                    &&& status.message@ == IMPORT_RUNNING_ERROR@
                    &&& status.id is None
                },
            },
    {
        if self.check_lock_set_if_unlocked() {
            Err(JsonStatus::new(JsonStatusType::Error, IMPORT_RUNNING_ERROR))
        } else {
            Ok(())
        }
    }
}

/// Whether a directory entry is imported: a file with the extension `json`,
/// in any case, smaller than 30 MB, that can be written to.
pub fn is_import_file(extension: Option<&str>, is_file: bool, size: u64, read_only: bool) -> (taken:
    bool)
    ensures
        taken == (match extension {
            Some(ext) => lowercase(ext@) == IMPORT_EXT@,
            None => false,
        } && is_file && size < MAX_FILE_SIZE && !read_only),
{
    let is_import_ext = match extension {
        Some(ext) => is_word_in_any_case(ext, IMPORT_EXT),
        None => false,
    };
    is_import_ext && is_file && size < MAX_FILE_SIZE && !read_only
}

/// When a file was modified, as the file system tells it: in seconds since
/// the epoch, before the epoch, or not at all.
#[derive(Debug, Clone, Copy, PartialEq, Eq, Structural)]
pub enum Modified {
    At(u64),
    BeforeEpoch,
    Unknown,
}

/// The moment by which a file takes its place among the others: zero where
/// nothing is known, the largest number for a moment before the epoch.
pub fn modified_time(modified: Modified) -> (seconds: u64)
    ensures
        seconds == match modified {
            Modified::At(t) => t,
            Modified::BeforeEpoch => u64::MAX,
            Modified::Unknown => 0u64,
        },
{
    match modified {
        Modified::At(t) => t,
        Modified::BeforeEpoch => u64::MAX,
        Modified::Unknown => 0,
    }
}

/// Whether the file `a` comes before the file `b`: it was modified earlier,
/// or at the same moment and was listed earlier.
pub open spec fn comes_before(modified: Seq<u64>, a: int, b: int) -> bool {
    modified[a] < modified[b] || (modified[a] == modified[b] && a < b)
}

/// Whether `order` names the file `k`.
pub open spec fn names_file(order: Seq<usize>, k: int) -> bool {
    exists|i: int| 0 <= i < order.len() && #[trigger] order[i] == k
}

/// Whether `order` names each of the first `count` files once, the earliest
/// first.
pub open spec fn is_earliest_first(modified: Seq<u64>, count: int, order: Seq<usize>) -> bool {
    &&& order.len() == count
    &&& forall|i: int| 0 <= i < order.len() ==> 0 <= #[trigger] order[i] < count
    &&& forall|i: int, j: int|
        0 <= i < j < order.len() ==> comes_before(modified, order[i] as int, order[j] as int)
    &&& forall|k: int| 0 <= k < count ==> #[trigger] names_file(order, k)
}

/// The order in which files are imported: by the moment they were modified
/// at, the earliest first, and as they were listed where that moment is the
/// same. `modified` holds the moment of each file; the result names the
/// files by their place in it.
pub fn earliest_first(modified: &Vec<u64>) -> (order: Vec<usize>)
    ensures
        is_earliest_first(modified@, modified@.len() as int, order@),
{
    let mut order: Vec<usize> = Vec::new();
    let mut k: usize = 0;
    while k < modified.len()
        invariant
            k <= modified@.len(),
            is_earliest_first(modified@, k as int, order@),
        decreases modified@.len() - k,
    {
        let mut at: usize = order.len();
        while at > 0 && modified[order[at - 1]] > modified[k]
            invariant
                at <= order@.len() == k,
                k < modified@.len(),
                is_earliest_first(modified@, k as int, order@),
                forall|i: int| at <= i < order@.len() ==> modified@[order@[i] as int] > modified@[k as int],
            decreases at,
        {
            at -= 1;
        }
        let ghost before = order@;
        order.insert(at, k);
        proof {
            assert forall|i: int, j: int| 0 <= i < j < order@.len() implies comes_before(
                modified@,
                order@[i] as int,
                order@[j] as int,
            ) by {
                if j < at {
                    assert(order@[i] == before[i] && order@[j] == before[j]);
                } else if j == at {
                    assert(order@[i] == before[i]);
                    if at > 0 {
                        assert(comes_before(modified@, before[i] as int, before[at - 1] as int)
                            || i == at - 1);
                    }
                } else if i < at {
                    assert(order@[i] == before[i] && order@[j] == before[j - 1]);
                } else if i == at {
                    assert(order@[j] == before[j - 1]);
                } else {
                    assert(order@[i] == before[i - 1] && order@[j] == before[j - 1]);
                }
            }
            assert forall|idx: int| 0 <= idx < k + 1 implies #[trigger] names_file(
                order@,
                idx,
            ) by {
                if idx == k {
                    assert(order@[at as int] == k);
                } else {
                    assert(names_file(before, idx));
                    let i = choose|i: int| 0 <= i < before.len() && #[trigger] before[i] == idx;
                    if i < at {
                        assert(order@[i] == idx);
                    } else {
                        assert(order@[i + 1] == idx);
                    }
                }
            }
            assert forall|i: int| 0 <= i < order@.len() implies 0 <= #[trigger] order@[i] < k + 1 by {
                if i < at {
                    assert(order@[i] == before[i]);
                } else if i > at {
                    assert(order@[i] == before[i - 1]);
                }
            }
        }
        k += 1;
    }
    order
}

/// What the database knows of an imported article.
#[derive(Debug, Clone, Copy, PartialEq, Eq, Structural)]
pub struct ImportFacts {
    /// Whether the article that the id names exists.
    pub article_exists: bool,
    /// The first tag of the article, in its order, that does not exist.
    pub missing_tag: Option<i32>,
    /// Whether the user that the article names exists.
    pub user_exists: bool,
    /// The article that has the address of the imported one, if any.
    pub url_owner: Option<i32>,
}

/// What is done with an imported article.
#[derive(Debug)]
pub enum ImportStep {
    /// The article is refused, with the status to report.
    Reject(JsonStatus),
    /// The article with this id is deleted.
    Delete(i32),
    /// The article with this id is updated.
    Update(i32),
    /// A new article is inserted.
    Insert,
}

/// Why an imported article is refused, if it is: the first of these that
/// holds. Its id names no article. Otherwise, unless it asks for the
/// deletion of the article: one of its tags does not exist; its user does
/// not exist; its address belongs to another article; it is new and names
/// no user.
pub open spec fn import_refusal(article: ImportedArticleDto, facts: ImportFacts) -> Option<
    (Seq<char>, Option<i32>),
> {
    if article.id is Some && !facts.article_exists {
        Some(("Article ID doesn't exist"@, article.id))
    } else if article.id is Some && article.action == Some(1u32) {
        None
    } else if article.tags is Some && facts.missing_tag is Some {
        Some(
            (
                "Tag with ID "@ + decimal(facts.missing_tag->0 as int) + " does not exist"@,
                None,
            ),
        )
    } else if article.user_id is Some && !facts.user_exists {
        Some(
            ("User with ID "@ + decimal(article.user_id->0 as int) + " does not exist"@, None),
        )
    } else if article.article_url is Some && facts.url_owner is Some && article.id
        != facts.url_owner {
        Some(("Article URL "@ + article.article_url->0@ + " already exists"@, None))
    } else if article.id is None && article.user_id is None {
        Some(("Field userId is required when inserting articles"@, None))
    } else {
        None
    }
}

fn refusal(message: String, id: Option<i32>) -> (step: ImportStep)
    ensures
        match step {
            ImportStep::Reject(status) => {
                &&& status.status@ == status_text(JsonStatusType::Error)
                &&& status.message@ == message@
                &&& status.id == id
            },
            _ => false,
        },
{
    match id {
        Some(id) => ImportStep::Reject(
            JsonStatus::new_with_id(JsonStatusType::Error, message.as_str(), id),
        ),
        None => ImportStep::Reject(JsonStatus::new(JsonStatusType::Error, message.as_str())),
    }
}

/// Decides what is done with an imported article, from what the database
/// knows of it. An article with an id and the action 1 is deleted; another
/// one with an id is updated; one without an id is inserted.
pub fn plan_import(article: &ImportedArticleDto, facts: ImportFacts) -> (step: ImportStep)
    ensures
        match step {
            ImportStep::Reject(status) => {
                &&& import_refusal(*article, facts) == Some((status.message@, status.id))
                &&& status.status@ == status_text(JsonStatusType::Error)
            },
            ImportStep::Delete(id) => {
                &&& import_refusal(*article, facts) is None
                &&& article.id == Some(id)
                &&& article.action == Some(1u32)
            },
            ImportStep::Update(id) => {
                &&& import_refusal(*article, facts) is None
                &&& article.id == Some(id)
                &&& article.action != Some(1u32)
            },
            ImportStep::Insert => import_refusal(*article, facts) is None && article.id is None,
        },
{
    if let Some(id) = article.id {
        if !facts.article_exists {
            return refusal("Article ID doesn't exist".to_owned(), Some(id));
        }
        if let Some(1) = article.action {
            return ImportStep::Delete(id);
        }
    }
    if article.tags.is_some() {
        if let Some(tag) = facts.missing_tag {
            let mut message = "Tag with ID ".to_owned();
            message.append(i64_to_string(tag as i64).as_str());
            message.append(" does not exist");
            return refusal(message, None);
        }
    }
    if let Some(user_id) = article.user_id {
        if !facts.user_exists {
            let mut message = "User with ID ".to_owned();
            message.append(i64_to_string(user_id as i64).as_str());
            message.append(" does not exist");
            return refusal(message, None);
        }
    }
    if let Some(article_url) = &article.article_url {
        let valid_url = match (facts.url_owner, article.id) {
            (Some(id_for_url), Some(id)) => id_for_url == id,
            (Some(_), None) => false,
            _ => true,
        };
        if !valid_url {
            let mut message = "Article URL ".to_owned();
            message.append(article_url.as_str());
            message.append(" already exists");
            return refusal(message, None);
        }
    }
    match (article.id, article.user_id) {
        (Some(id), _) => ImportStep::Update(id),
        (None, Some(_)) => ImportStep::Insert,
        _ => refusal("Field userId is required when inserting articles".to_owned(), None),
    }
}

} // verus!
