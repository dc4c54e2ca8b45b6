//! The redirect resolver: records beginning with the redirect-marker prefix
//! become alias-to-target mappings. The target need not exist; a dangling
//! redirect is the storage collaborator's concern.

use vstd::prelude::*;
use vstd::string::StrSliceExecFns;
use crate::text::spec_starts_with;
use crate::text::spec_trim;
use crate::text::starts_with;
use crate::text::substr;
use crate::text::trim_str;

verus! {

/// The model of a redirect mapping.
pub ghost struct RedirectModel {
    pub alias: Seq<char>,
    pub target_headword: Seq<char>,
}

/// An alias pointing at a canonical target headword.
#[derive(Clone, Debug)]
pub struct RedirectEntry {
    /// The aliased headword: the title of the preceding record when one is
    /// pending, else the target itself.
    pub alias: String,
    /// The canonical headword the alias points at; it may dangle.
    pub target_headword: String,
}

impl View for RedirectEntry {
    type V = RedirectModel;

    open spec fn view(&self) -> RedirectModel {
        RedirectModel { alias: self.alias@, target_headword: self.target_headword@ }
    }
}

impl DeepView for RedirectEntry {
    type V = RedirectModel;

    open spec fn deep_view(&self) -> RedirectModel {
        self.view()
    }
}

/// Whether a record is a redirect marker.
pub open spec fn spec_is_redirect_line(l: Seq<char>) -> bool {
    spec_starts_with(l, "@@@LINK="@)
}

/// The target of a redirect record: what follows the marker, trimmed.
pub open spec fn spec_redirect_target(l: Seq<char>) -> Seq<char> {
    spec_trim(l.skip("@@@LINK="@.len() as int))
}

/// The resolution of a record against the pending title: a redirect record
/// maps the preceding title (or, with none pending, the target itself) to
/// the marked target; any other record resolves to nothing.
pub open spec fn spec_resolve_redirect(l: Seq<char>, pending: Option<Seq<char>>) -> Option<
    RedirectModel,
> {
    if spec_is_redirect_line(l) {
        let target = spec_redirect_target(l);
        Some(
            RedirectModel {
                alias: match pending {
                    Some(t) => t,
                    None => target,
                },
                target_headword: target,
            },
        )
    } else {
        None
    }
}

/// Resolves one record against the pending title, unconditionally: the
/// target is not required to exist.
pub fn resolve_redirect(line: &str, pending_title: &Option<String>) -> (r: Option<RedirectEntry>)
    ensures
        r is Some <==> spec_is_redirect_line(line@),
        r matches Some(e) ==> e@ == spec_resolve_redirect(line@, pending_title.deep_view()).unwrap(),
{
    if !starts_with(line, "@@@LINK=") {
        return None;
    }
    let m = "@@@LINK=".unicode_len();
    let n = line.unicode_len();
    let rest = substr(line, m, n);
    proof {
        assert(rest@ =~= line@.skip("@@@LINK="@.len() as int));
    }
    let target = trim_str(rest.as_str());
    let alias = match pending_title {
        Some(t) => t.clone(),
        None => target.clone(),
    };
    Some(RedirectEntry { alias, target_headword: target })
}

} // verus!
