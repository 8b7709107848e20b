use vstd::prelude::*;
use crate::error::FileError;
use crate::json::{json_text_is_valid, parse_json_text, json_error_text};

verus! {

/// The file name under which a command catalog is looked for.
pub const CATALOG_FILE_NAME: &'static str = "commands.json";

/// Where a loaded catalog came from.
#[derive(Clone, Copy, Debug, PartialEq, Eq, Structural)]
pub enum CatalogSource {
    /// The candidate file at this position of the priority list.
    External(usize),
    /// The catalog built into the program.
    Embedded,
}

/// A candidate that was read (`Some`) and holds valid JSON.
pub open spec fn is_usable(candidate: Option<String>) -> bool {
    candidate is Some && json_text_is_valid(candidate->Some_0@)
}

pub open spec fn none_usable(candidates: Seq<Option<String>>) -> bool {
    forall|j: int| 0 <= j < candidates.len() ==> !is_usable(#[trigger] candidates[j])
}

/// Resolves the command catalog from candidate files in priority order,
/// each given as its text or as `None` when it does not exist or could not
/// be read, and from the catalog built into the program.
///
/// The first candidate that holds valid JSON wins; one that does not is
/// passed over. Only when none is usable does the built-in catalog count,
/// and only its failure to parse is an error.
pub fn resolve_catalog(candidates: &Vec<Option<String>>, embedded: &str) -> (r: Result<
    (CatalogSource, serde_json::Value),
    FileError,
>)
    ensures
        match r {
            Ok((CatalogSource::External(k), _)) => k < candidates@.len() && is_usable(
                candidates@[k as int],
            ) && none_usable(candidates@.subrange(0, k as int)),
            Ok((CatalogSource::Embedded, _)) => none_usable(candidates@) && json_text_is_valid(
                embedded@,
            ),
            Err(e) => none_usable(candidates@) && !json_text_is_valid(embedded@)
                && e is EmbeddedCatalog,
        },
        (forall|j: int| 0 <= j < candidates@.len() ==> (#[trigger] candidates@[j]) is None) ==> (
        match r {
            Ok((source, _)) => source == CatalogSource::Embedded,
            Err(e) => e is EmbeddedCatalog,
        }),
        (forall|j: int| 0 <= j < candidates@.len() ==> (#[trigger] candidates@[j]) is None)
            && json_text_is_valid(embedded@) ==> r is Ok && r->Ok_0.0 == CatalogSource::Embedded,
{
    let mut k: usize = 0;
    while k < candidates.len()
        invariant
            k <= candidates@.len(),
            none_usable(candidates@.subrange(0, k as int)),
        decreases candidates.len() - k,
    {
        match &candidates[k] {
            Some(text) => match parse_json_text(text.as_str()) {
                Ok(v) => {
                    return Ok((CatalogSource::External(k), v));
                },
                Err(_) => {},
            },
            None => {},
        }
        proof {
            let s = candidates@.subrange(0, k + 1);
            assert forall|j: int| 0 <= j < s.len() implies !is_usable(#[trigger] s[j]) by {
                if j < k {
                    assert(s[j] == candidates@.subrange(0, k as int)[j]);
                }
            }
        }
        k = k + 1;
    }
    proof {
        assert(candidates@.subrange(0, k as int) =~= candidates@);
    }
    match parse_json_text(embedded) {
        Ok(v) => Ok((CatalogSource::Embedded, v)),
        Err(e) => Err(FileError::EmbeddedCatalog { detail: json_error_text(&e) }),
    }
}

} // verus!
