//! Physical conditions and the file-naming key derived from them.

use vstd::prelude::*;

use crate::stage::StageTag;
use crate::stage::label_seq;

verus! {

/// `s` from position `i` on, with the first decimal point removed.
pub open spec fn strip_point_from(s: Seq<char>, i: int) -> Seq<char>
    decreases s.len() - i when 0 <= i <= s.len()
{
    if !(0 <= i < s.len()) {
        Seq::empty()
    } else if s[i] == '.' {
        s.subrange(i + 1, s.len() as int)
    } else {
        seq![s[i]] + strip_point_from(s, i + 1)
    }
}

/// `s` with its first decimal point removed; the key form of a number.
pub open spec fn strip_point(s: Seq<char>) -> Seq<char> {
    strip_point_from(s, 0)
}

pub proof fn lemma_strip_point_no_point(s: Seq<char>, i: int)
    requires
        0 <= i <= s.len(),
        forall|m: int| i <= m < s.len() ==> s[m] != '.',
    ensures
        strip_point_from(s, i) =~= s.subrange(i, s.len() as int),
    decreases s.len() - i,
{
    if i < s.len() {
        lemma_strip_point_no_point(s, i + 1);
    }
}

pub proof fn lemma_strip_point_at(s: Seq<char>, i: int, p: int)
    requires
        0 <= i <= p < s.len(),
        forall|m: int| i <= m < p ==> s[m] != '.',
        s[p] == '.',
    ensures
        strip_point_from(s, i) =~= s.subrange(i, p) + s.subrange(p + 1, s.len() as int),
    decreases p - i,
{
    if i < p {
        lemma_strip_point_at(s, i + 1, p);
    }
}

/// An immutable physical state: electron fraction, temperature and density.
///
/// The three values are held in the textual form the external naming scheme
/// uses: the electron fraction as a plain decimal (for instance `0.23`),
/// temperature and density in scientific notation (for instance `1e10`).
/// Key and path derivation read nothing but this text, so the caller that
/// owns the numeric values formats them once and hands the text over.
#[derive(Debug, Clone, PartialEq, Eq)]
pub struct Condition {
    pub electron_fraction: String,
    pub temperature: String,
    pub density: String,
}

/// The on-disk path of a dataset, as the external naming scheme fixes it:
/// `<base>/Ye<key>/data/<stage>_Ye_<key>_T0_<temperature>_rho0_<density>.txt`,
/// where `<key>` is the electron fraction with its decimal point removed.
pub open spec fn path_seq(base: Seq<char>, c: Condition, stage: StageTag) -> Seq<char> {
    base + "/Ye"@ + strip_point(c.electron_fraction@) + "/data/"@ + label_seq(stage) + "_Ye_"@
        + strip_point(c.electron_fraction@) + "_T0_"@ + c.temperature@ + "_rho0_"@ + c.density@
        + ".txt"@
}

impl Condition {
    /// The canonical dataset key: the electron fraction with its decimal
    /// point removed, so `0.23` keys as `023` and `0.5` as `05`.  The
    /// transformation is lossy and format-specific; it must mirror the
    /// external file-naming scheme exactly.
    pub fn derive_key(&self) -> (r: String)
        ensures
            r@ == strip_point(self.electron_fraction@),
    {
        let s: &str = self.electron_fraction.as_str();
        let n = s.unicode_len();
        let mut p: usize = 0;
        while p < n && s.get_char(p) != '.'
            invariant
                n == s@.len(),
                p <= n,
                forall|m: int| 0 <= m < p ==> s@[m] != '.',
            decreases n - p,
        {
            p += 1;
        }
        if p == n {
            proof {
                lemma_strip_point_no_point(s@, 0);
                assert(s@.subrange(0, n as int) =~= s@);
            }
            s.to_owned()
        } else {
            proof {
                lemma_strip_point_at(s@, 0, p as int);
            }
            let head = s.substring_char(0, p).to_owned();
            let r = head.concat(s.substring_char(p + 1, n));
            r
        }
    }

    /// The full path of the dataset this condition and stage select, under
    /// `base`.
    pub fn dataset_path(&self, base: &str, stage: StageTag) -> (r: String)
        ensures
            r@ == path_seq(base@, *self, stage),
    {
        let key = self.derive_key();
        let mut r = base.to_owned();
        r.append("/Ye");
        r.append(key.as_str());
        r.append("/data/");
        let label = stage.label();
        r.append(label.as_str());
        r.append("_Ye_");
        r.append(key.as_str());
        r.append("_T0_");
        r.append(self.temperature.as_str());
        r.append("_rho0_");
        r.append(self.density.as_str());
        r.append(".txt");
        r
    }
}

} // verus!
