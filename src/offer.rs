use vstd::prelude::*;

verus! {

/// What `std::path::Path::file_name` gives for a path written as text.
pub uninterp spec fn base_name_of(p: Seq<char>) -> Option<Seq<char>>;

/// Relies on `std::path::Path::file_name`: the final component of the path,
/// or none where the path ends in `..` or is a root.
#[verifier::external_body]
pub(crate) fn base_name(p: &str) -> (r: Option<String>)
    ensures
        r is None <==> base_name_of(p@) is None,
        r is Some ==> base_name_of(p@) == Some(r->0@),
{
    std::path::Path::new(p).file_name().map(|n| n.to_string_lossy().into_owned())
}

/// A validated offer: one file or folder under a display name, or several
/// paths sent under their own names, in the order given.
#[derive(Clone, Debug, PartialEq, Eq)]
pub enum OfferPlan {
    FileOrFolder { name: String, path: String },
    Paths { paths: Vec<String> },
}

/// Why an offer could not be built. None of these touches the network.
#[derive(Clone, Debug, PartialEq, Eq)]
pub enum OfferError {
    NoPaths,
    PathNotFound { path: String },
    UnnamableFile { path: String },
    AmbiguousRename,
    DuplicateName { existing: String, colliding: String },
}

pub open spec fn opt_view(o: Option<String>) -> Option<Seq<char>> {
    match o {
        Some(s) => Some(s@),
        None => None,
    }
}

pub open spec fn opt_views(v: Seq<Option<String>>) -> Seq<Option<Seq<char>>> {
    v.map_values(|o: Option<String>| opt_view(o))
}

/// The base names of the given paths, one for each.
pub open spec fn base_names(paths: Seq<String>) -> Seq<Option<Seq<char>>> {
    paths.map_values(|p: String| base_name_of(p@))
}

pub open spec fn all_exist_before(exists: Seq<bool>, k: int) -> bool {
    forall|j: int| 0 <= j < k ==> #[trigger] exists[j]
}

/// `i` is the first path that does not exist.
pub open spec fn missing_at(exists: Seq<bool>, i: int) -> bool {
    0 <= i < exists.len() && !exists[i] && all_exist_before(exists, i)
}

/// The first `k` names are all present and pairwise distinct.
pub open spec fn names_clean_before(names: Seq<Option<Seq<char>>>, k: int) -> bool {
    &&& forall|j: int| 0 <= j < k ==> (#[trigger] names[j]) is Some
    &&& forall|i: int, j: int| 0 <= i < j < k ==> names[i] != names[j]
}

/// `j` is the first path without a base name.
pub open spec fn unnamed_at(names: Seq<Option<Seq<char>>>, j: int) -> bool {
    0 <= j < names.len() && names_clean_before(names, j) && names[j] is None
}

/// `j` is the first path whose base name repeats one before it, that of `i`.
pub open spec fn duplicate_at(names: Seq<Option<Seq<char>>>, i: int, j: int) -> bool {
    &&& 0 <= i < j < names.len()
    &&& names_clean_before(names, j)
    &&& names[j] is Some
    &&& names[i] == names[j]
}

/// The outcome of building an offer from `paths`, whether each exists,
/// their base names and an optional rename.
pub open spec fn offer_outcome(
    paths: Seq<String>,
    exists: Seq<bool>,
    names: Seq<Option<Seq<char>>>,
    rename: Option<String>,
    r: Result<OfferPlan, OfferError>,
) -> bool {
    let n = paths.len();
    if n == 0 {
        r matches Err(OfferError::NoPaths)
    } else if !all_exist_before(exists, n as int) {
        exists|i: int|
            missing_at(exists, i) && (r matches Err(OfferError::PathNotFound { path }) && path
                == paths[i])
    } else if n == 1 {
        match rename {
            Some(nm) => r matches Ok(OfferPlan::FileOrFolder { name, path }) && name == nm && path
                == paths[0],
            None => match names[0] {
                Some(b) => r matches Ok(OfferPlan::FileOrFolder { name, path }) && name@ == b
                    && path == paths[0],
                None => r matches Err(OfferError::UnnamableFile { path }) && path == paths[0],
            },
        }
    } else if rename is Some {
        r matches Err(OfferError::AmbiguousRename)
    } else if exists|j: int| unnamed_at(names, j) {
        exists|j: int|
            unnamed_at(names, j) && (r matches Err(OfferError::UnnamableFile { path }) && path
                == paths[j])
    } else if exists|i: int, j: int| duplicate_at(names, i, j) {
        exists|i: int, j: int|
            duplicate_at(names, i, j) && (r matches Err(
                OfferError::DuplicateName { existing, colliding },
            ) && existing == paths[i] && colliding == paths[j])
    } else {
        r matches Ok(OfferPlan::Paths { paths: ps }) && ps@ == paths
    }
}

/// Builds an offer from paths whose existence and base names are already known.
pub fn plan_offer(
    paths: Vec<String>,
    exists: &Vec<bool>,
    names: &Vec<Option<String>>,
    rename: Option<String>,
) -> (r: Result<OfferPlan, OfferError>)
    requires
        exists@.len() == paths@.len(),
        names@.len() == paths@.len(),
    ensures
        offer_outcome(paths@, exists@, opt_views(names@), rename, r),
{
    let ghost nv = opt_views(names@);
    let n = paths.len();
    if n == 0 {
        return Err(OfferError::NoPaths);
    }
    let mut k: usize = 0;
    while k < n
        invariant
            k <= n,
            n == paths@.len(),
            exists@.len() == n,
            all_exist_before(exists@, k as int),
        decreases n - k,
    {
        if !exists[k] {
            assert(missing_at(exists@, k as int));
            return Err(OfferError::PathNotFound { path: paths[k].clone() });
        }
        k = k + 1;
    }
    if n == 1 {
        let path = paths[0].clone();
        match rename {
            Some(name) => {
                return Ok(OfferPlan::FileOrFolder { name, path });
            },
            None => {
                match &names[0] {
                    Some(b) => {
                        return Ok(OfferPlan::FileOrFolder { name: b.clone(), path });
                    },
                    None => {
                        return Err(OfferError::UnnamableFile { path });
                    },
                }
            },
        }
    }
    if rename.is_some() {
        return Err(OfferError::AmbiguousRename);
    }
    let mut j: usize = 0;
    while j < n
        invariant
            j <= n,
            n == paths@.len(),
            names@.len() == n,
            n > 1,
            exists@.len() == n,
            all_exist_before(exists@, n as int),
            rename is None,
            nv == opt_views(names@),
            names_clean_before(nv, j as int),
        decreases n - j,
    {
        match &names[j] {
            None => {
                assert(unnamed_at(nv, j as int));
                return Err(OfferError::UnnamableFile { path: paths[j].clone() });
            },
            Some(b) => {
                let mut i: usize = 0;
                while i < j
                    invariant
                        i <= j < n,
                        n == paths@.len(),
                        n > 1,
                        exists@.len() == n,
                        all_exist_before(exists@, n as int),
                        rename is None,
                        names@.len() == n,
                        nv == opt_views(names@),
                        names_clean_before(nv, j as int),
                        nv[j as int] == Some(b@),
                        forall|m: int| 0 <= m < i ==> nv[m] != nv[j as int],
                    decreases j - i,
                {
                    match &names[i] {
                        Some(a) => {
                            if *a == *b {
                                assert(duplicate_at(nv, i as int, j as int));
                                return Err(
                                    OfferError::DuplicateName {
                                        existing: paths[i].clone(),
                                        colliding: paths[j].clone(),
                                    },
                                );
                            }
                        },
                        None => {},
                    }
                    i = i + 1;
                }
            },
        }
        j = j + 1;
    }
    assert(!exists|j: int| unnamed_at(nv, j));
    assert(!exists|i: int, j: int| duplicate_at(nv, i, j));
    Ok(OfferPlan::Paths { paths })
}

/// Builds an offer from paths and whether each exists on disk, taking each
/// path's base name from the path itself.
pub fn make_send_offer(paths: Vec<String>, exists: &Vec<bool>, rename: Option<String>) -> (r:
    Result<OfferPlan, OfferError>)
    requires
        exists@.len() == paths@.len(),
    ensures
        offer_outcome(paths@, exists@, base_names(paths@), rename, r),
{
    let mut names: Vec<Option<String>> = Vec::new();
    let mut k: usize = 0;
    while k < paths.len()
        invariant
            k <= paths@.len(),
            names@.len() == k,
            forall|m: int| 0 <= m < k ==> opt_view(#[trigger] names@[m]) == base_name_of(paths@[m]@),
        decreases paths@.len() - k,
    {
        let b = base_name(paths[k].as_str());
        names.push(b);
        k = k + 1;
    }
    assert(opt_views(names@) =~= base_names(paths@));
    plan_offer(paths, exists, &names, rename)
}

/// A rename is refused whenever more than one path is offered and all exist.
pub proof fn lemma_rename_needs_single_path(
    paths: Seq<String>,
    exists: Seq<bool>,
    names: Seq<Option<Seq<char>>>,
    rename: Option<String>,
    r: Result<OfferPlan, OfferError>,
)
    requires
        paths.len() > 1,
        exists.len() == paths.len(),
        names.len() == paths.len(),
        forall|i: int| 0 <= i < exists.len() ==> #[trigger] exists[i],
        rename is Some,
        offer_outcome(paths, exists, names, rename, r),
    ensures
        r matches Err(OfferError::AmbiguousRename),
{
}

/// Where every path exists and has a base name, and the names at `i` and `j`
/// are the only two that are equal, the offer fails naming exactly those two paths.
pub proof fn lemma_duplicate_names_reported(
    paths: Seq<String>,
    exists: Seq<bool>,
    names: Seq<Option<Seq<char>>>,
    i: int,
    j: int,
    r: Result<OfferPlan, OfferError>,
)
    requires
        exists.len() == paths.len(),
        names.len() == paths.len(),
        forall|k: int| 0 <= k < exists.len() ==> #[trigger] exists[k],
        forall|k: int| 0 <= k < names.len() ==> (#[trigger] names[k]) is Some,
        0 <= i < j < paths.len(),
        names[i] == names[j],
        forall|a: int, b: int|
            0 <= a < b < names.len() && names[a] == names[b] ==> a == i && b == j,
        offer_outcome(paths, exists, names, None, r),
    ensures
        r matches Err(OfferError::DuplicateName { existing, colliding }) && existing == paths[i]
            && colliding == paths[j],
{
    assert(all_exist_before(exists, paths.len() as int));
    assert(duplicate_at(names, i, j));
    assert(!exists|k: int| unnamed_at(names, k));
    assert forall|a: int, b: int| duplicate_at(names, a, b) implies a == i && b == j by {}
}

/// Where every path exists and the base names are present and distinct, a
/// bundle of two or more paths is offered in the order given.
pub proof fn lemma_unique_names_keep_order(
    paths: Seq<String>,
    exists: Seq<bool>,
    names: Seq<Option<Seq<char>>>,
    r: Result<OfferPlan, OfferError>,
)
    requires
        paths.len() > 1,
        exists.len() == paths.len(),
        names.len() == paths.len(),
        forall|k: int| 0 <= k < exists.len() ==> #[trigger] exists[k],
        names_clean_before(names, names.len() as int),
        offer_outcome(paths, exists, names, None, r),
    ensures
        r matches Ok(OfferPlan::Paths { paths: ps }) && ps@ == paths,
{
    assert(all_exist_before(exists, paths.len() as int));
    assert(!exists|k: int| unnamed_at(names, k));
    assert(!exists|a: int, b: int| duplicate_at(names, a, b));
}

} // verus!
