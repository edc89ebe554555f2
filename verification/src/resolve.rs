use vstd::prelude::*;
use vstd::string::StringExecFns;

use crate::platform::{exe_suffix, suffix_spec, BuildInfo};
use crate::text::{join_spec, path_join};

verus! {

/// The candidate directories for a sidecar binary, deduplicated and in
/// priority order: the directory of the application's own executable first,
/// the bundled-resource directory second.
pub open spec fn dirs_spec(exe_dir: Option<Seq<char>>, resource_dir: Option<Seq<char>>) -> Seq<
    Seq<char>,
> {
    let own: Seq<Seq<char>> = match exe_dir {
        Some(d) => seq![d],
        None => seq![],
    };
    match resource_dir {
        Some(d) => if exe_dir is Some && exe_dir.unwrap() == d {
            own
        } else {
            own.push(d)
        },
        None => own,
    }
}

/// Collects the directories to search for a sidecar binary: the directory the
/// application's own executable sits in, then the bundled-resource directory,
/// keeping that order and dropping the second when it repeats the first.
/// Either directory may be unresolvable on the host, hence the options.
pub fn candidate_dirs(exe_dir: &Option<String>, resource_dir: &Option<String>) -> (r: Vec<String>)
    ensures
        r.deep_view() == dirs_spec(
            match *exe_dir {
                Some(d) => Some(d@),
                None => None,
            },
            match *resource_dir {
                Some(d) => Some(d@),
                None => None,
            },
        ),
{
    let mut r: Vec<String> = Vec::new();
    match exe_dir {
        Some(d) => r.push(d.clone()),
        None => (),
    }
    match resource_dir {
        Some(d) => {
            let duplicate = match exe_dir {
                Some(e) => *e == *d,
                None => false,
            };
            if !duplicate {
                r.push(d.clone());
            }
        },
        None => (),
    }
    proof {
        assert(r.deep_view() =~= dirs_spec(
            match *exe_dir {
                Some(d) => Some(d@),
                None => None,
            },
            match *resource_dir {
                Some(d) => Some(d@),
                None => None,
            },
        ));
    }
    r
}

/// The filename variants for a sidecar, in priority order: the
/// platform-qualified name (when the build carries a target triple) with the
/// platform's executable suffix, then the plain name with the suffix.
pub open spec fn names_spec(base: Seq<char>, triple: Option<Seq<char>>, windows: bool) -> Seq<
    Seq<char>,
> {
    let plain = base + suffix_spec(windows);
    match triple {
        Some(t) => seq![base + "-"@ + t + suffix_spec(windows), plain],
        None => seq![plain],
    }
}

/// Builds the filename variants tried for the sidecar `base` under this
/// build's platform, platform-qualified variant first.
pub fn candidate_names(base: &str, info: &BuildInfo) -> (r: Vec<String>)
    ensures
        r.deep_view() == names_spec(base@, info@.target_triple, info.windows),
{
    let suffix = exe_suffix(info);
    let mut r: Vec<String> = Vec::new();
    match &info.target_triple {
        Some(t) => {
            r.push(String::from_str(base).concat("-").concat(t.as_str()).concat(suffix));
        },
        None => (),
    }
    r.push(String::from_str(base).concat(suffix));
    proof {
        assert(r.deep_view() =~= names_spec(base@, info@.target_triple, info.windows));
    }
    r
}

/// `(i1, j1)` comes before `(i2, j2)` in directories-then-variants order.
pub open spec fn lex_before(i1: int, j1: int, i2: int, j2: int) -> bool {
    i1 < i2 || (i1 == i2 && j1 < j2)
}

/// Some candidate exists: `present[i][j]` says whether the `j`th filename
/// variant exists in the `i`th candidate directory.
pub open spec fn some_hit(present: Seq<Seq<bool>>) -> bool {
    exists|i: int, j: int|
        0 <= i < present.len() && 0 <= j < present[i].len() && present[i][j]
}

/// `(i, j)` is the first position, in directories-then-variants order, whose
/// candidate exists.
pub open spec fn first_hit(present: Seq<Seq<bool>>, i: int, j: int) -> bool {
    &&& 0 <= i < present.len()
    &&& 0 <= j < present[i].len()
    &&& present[i][j]
    &&& forall|i2: int, j2: int|
        0 <= i2 < present.len() && 0 <= j2 < present[i2].len() && lex_before(i2, j2, i, j)
            ==> !present[i2][j2]
}

/// No sidecar binary was found; carries the list of directories that were
/// searched.
#[derive(Debug)]
pub struct NotFound {
    pub searched: Vec<String>,
}

/// Resolves a sidecar binary: `dirs` and `names` are the candidate
/// directories and filename variants, both in priority order, and
/// `present[i][j]` reports whether `dirs[i]/names[j]` exists on disk. Returns
/// the first existing path, trying every variant of a directory before moving
/// to the next directory, and fails with the searched directory list when no
/// candidate exists anywhere.
pub fn find_external_bin(dirs: &Vec<String>, names: &Vec<String>, present: &Vec<Vec<bool>>) -> (r:
    Result<String, NotFound>)
    requires
        present.len() == dirs.len(),
        forall|i: int| 0 <= i < present@.len() ==> #[trigger] present@[i]@.len() == names@.len(),
    ensures
        r is Ok <==> some_hit(present.deep_view()),
        r matches Ok(p) ==> exists|i: int, j: int|
            #[trigger] first_hit(present.deep_view(), i, j) && p@ == join_spec(
                dirs.deep_view()[i],
                names.deep_view()[j],
            ),
        r matches Err(e) ==> e.searched@ == dirs@,
{
    let ghost pm = present.deep_view();
    let mut i: usize = 0;
    while i < dirs.len()
        invariant
            present@.len() == dirs@.len(),
            forall|k: int| 0 <= k < present@.len() ==> #[trigger] present@[k]@.len() == names@.len(),
            pm == present.deep_view(),
            i <= dirs@.len(),
            forall|i2: int, j2: int|
                0 <= i2 < i && 0 <= j2 < pm[i2].len() ==> !pm[i2][j2],
        decreases dirs@.len() - i,
    {
        let row = &present[i];
        let mut j: usize = 0;
        while j < row.len()
            invariant
                present@.len() == dirs@.len(),
                forall|k: int| 0 <= k < present@.len() ==> #[trigger] present@[k]@.len()
                    == names@.len(),
                pm == present.deep_view(),
                i < dirs@.len(),
                row == &present[i as int],
                j <= row@.len(),
                forall|i2: int, j2: int|
                    0 <= i2 < i && 0 <= j2 < pm[i2].len() ==> !pm[i2][j2],
                forall|j2: int| 0 <= j2 < j ==> !pm[i as int][j2],
            decreases row@.len() - j,
        {
            if row[j] {
                let p = path_join(dirs[i].as_str(), names[j].as_str());
                proof {
                    assert(first_hit(pm, i as int, j as int));
                    assert(p@ == join_spec(dirs.deep_view()[i as int], names.deep_view()[j as int]));
                }
                return Ok(p);
            }
            j += 1;
        }
        i += 1;
    }
    let mut searched: Vec<String> = Vec::new();
    let mut k: usize = 0;
    while k < dirs.len()
        invariant
            k <= dirs@.len(),
            searched@ =~= dirs@.take(k as int),
        decreases dirs@.len() - k,
    {
        searched.push(dirs[k].clone());
        k += 1;
    }
    proof {
        assert(searched@ =~= dirs@);
        assert(!some_hit(pm));
    }
    Err(NotFound { searched })
}

/// When both the platform-qualified and the generic filename variant of a
/// directory exist, resolution never picks that directory's generic variant:
/// the qualified one precedes it in the search order, so the chosen position
/// lies in an earlier directory or is the qualified variant itself.
pub proof fn lemma_qualified_precedes_generic(present: Seq<Seq<bool>>, d: int, i: int, j: int)
    requires
        0 <= d < present.len(),
        present[d].len() == 2,
        present[d][0],
        first_hit(present, i, j),
    ensures
        i < d || (i == d && j == 0),
        !(i == d && j == 1),
{
    if !(i < d || (i == d && j == 0)) {
        assert(lex_before(d, 0, i, j));
        assert(!present[d][0]);
    }
}

} // verus!
