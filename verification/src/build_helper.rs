//! The build-script helper's parameters: the custom assets a plugin build
//! stages next to its manifest, named either by their own file name or by
//! an explicit destination.
//!
//! The staging itself copies files and reads build-time variables, which
//! is I/O and lives outside the library.
use vstd::prelude::*;

use crate::text::{file_name_of, has_file_name, rfind_char};

verus! {

/// The parameters of one build-helper run.
#[derive(Debug)]
pub struct Params {
    pub custom_assets: Vec<(String, String)>,
}

/// A builder of build-helper [`Params`].
#[derive(Debug)]
pub struct ParamsBuilder {
    pub custom_assets: Option<Vec<(String, String)>>,
}

impl Default for ParamsBuilder {
    /// A builder with no assets yet.
    fn default() -> (r: ParamsBuilder)
        ensures
            r.custom_assets is None,
    {
        ParamsBuilder { custom_assets: None }
    }
}

/// The ghost shape of an asset pair list.
pub open spec fn asset_pairs(v: Seq<(String, String)>) -> Seq<(Seq<char>, Seq<char>)> {
    v.map_values(|p: (String, String)| (p.0@, p.1@))
}

/// The assets accumulated so far, as a ghost list.
pub open spec fn assets_model(o: Option<Vec<(String, String)>>) -> Seq<(Seq<char>, Seq<char>)> {
    match o {
        Some(v) => asset_pairs(v@),
        None => Seq::empty(),
    }
}

/// Asset paths paired with their own file names.
pub open spec fn self_named_assets(a: Seq<String>) -> Seq<(Seq<char>, Seq<char>)> {
    a.map_values(|x: String| (x@, asset_file_name(x@)))
}

/// The destination name of one asset: the part of its path after the
/// last slash.
pub open spec fn asset_file_name(s: Seq<char>) -> Seq<char> {
    s.skip(rfind_char(s, '/') + 1)
}

/// Appends one asset pair, tracked on the pair list's ghost shape.
fn push_pair(v: &mut Vec<(String, String)>, a: String, b: String)
    ensures
        asset_pairs(final(v)@) == asset_pairs(old(v)@).push((a@, b@)),
{
    let ghost m = asset_pairs(v@);
    let ghost av = a@;
    let ghost bv = b@;
    v.push((a, b));
    proof {
        assert(asset_pairs(v@) =~= m.push((av, bv)));
    }
}

impl ParamsBuilder {
    /// Adds assets named by their own file names: each path is staged
    /// under the name of its last component.
    pub fn custom_assets(&mut self, assets: &Vec<String>) -> (r: &mut ParamsBuilder)
        requires
            forall|i: int| 0 <= i < assets@.len() ==> has_file_name((#[trigger] assets@[i])@),
        ensures
            assets_model(r.custom_assets) =~= assets_model(old(self).custom_assets)
                + self_named_assets(assets@),
            *final(self) == *final(r),
    {
        let mut t: Vec<(String, String)> = match self.custom_assets.take() {
            Some(v) => v,
            None => Vec::new(),
        };
        let ghost base = asset_pairs(t@);
        let ghost base_is = assets_model(old(self).custom_assets);
        proof {
            assert(base =~= base_is);
        }
        let n = assets.len();
        let mut i: usize = 0;
        while i < n
            invariant
                base == assets_model(old(self).custom_assets),
                n == assets@.len(),
                0 <= i <= n,
                forall|k: int| 0 <= k < assets@.len() ==> has_file_name((#[trigger] assets@[k])@),
                asset_pairs(t@) =~= base + self_named_assets(assets@.take(i as int)),
            decreases n - i,
        {
            let asset: &String = &assets[i];
            let name: String = match file_name_of(asset.as_str()) {
                Some(tail) => tail.to_owned(),
                None => {
                    proof {
                        assert(has_file_name(assets@[i as int]@));
                        assert(false);
                    }
                    unreached()
                },
            };
            let ghost namev = name@;
            push_pair(&mut t, asset.clone(), name);
            proof {
                assert(self_named_assets(assets@.take(i + 1)) =~= self_named_assets(
                    assets@.take(i as int),
                ).push((assets@[i as int]@, namev)));
                assert(asset_pairs(t@) =~= base + self_named_assets(assets@.take(i + 1)));
            }
            i = i + 1;
        }
        proof {
            assert(assets@.take(n as int) =~= assets@);
            assert(self_named_assets(assets@.take(n as int)) =~= self_named_assets(assets@));
            assert(asset_pairs(t@) =~= base + self_named_assets(assets@));
        }
        self.custom_assets = Some(t);
        proof {
            assert(assets_model(self.custom_assets) =~= base + self_named_assets(assets@));
        }
        self
    }

    /// Adds assets with explicit destination names.
    pub fn custom_assets_named(&mut self, assets: &Vec<(String, String)>) -> (r:
        &mut ParamsBuilder)
        ensures
            assets_model(r.custom_assets) =~= assets_model(old(self).custom_assets)
                + asset_pairs(assets@),
            *final(self) == *final(r),
    {
        let mut t: Vec<(String, String)> = match self.custom_assets.take() {
            Some(v) => v,
            None => Vec::new(),
        };
        let ghost base = asset_pairs(t@);
        proof {
            assert(base =~= assets_model(old(self).custom_assets));
        }
        let n = assets.len();
        let mut i: usize = 0;
        while i < n
            invariant
                base == assets_model(old(self).custom_assets),
                n == assets@.len(),
                0 <= i <= n,
                asset_pairs(t@) =~= base + asset_pairs(assets@.take(i as int)),
            decreases n - i,
        {
            let from: String = assets[i].0.clone();
            let to: String = assets[i].1.clone();
            push_pair(&mut t, from, to);
            proof {
                assert(asset_pairs(assets@.take(i + 1)) =~= asset_pairs(
                    assets@.take(i as int),
                ).push((assets@[i as int].0@, assets@[i as int].1@)));
                assert(asset_pairs(t@) =~= base + asset_pairs(assets@.take(i + 1)));
            }
            i = i + 1;
        }
        proof {
            assert(assets@.take(n as int) =~= assets@);
            assert(asset_pairs(assets@.take(n as int)) =~= asset_pairs(assets@));
            assert(asset_pairs(t@) =~= base + asset_pairs(assets@));
        }
        self.custom_assets = Some(t);
        proof {
            assert(assets_model(self.custom_assets) =~= base + asset_pairs(assets@));
        }
        self
    }

    /// Builds the parameters; no assets means an empty list.
    pub fn build(self) -> (r: Params)
        ensures
            asset_pairs(r.custom_assets@) == assets_model(self.custom_assets),
    {
        match self.custom_assets {
            Some(v) => Params { custom_assets: v },
            None => {
                let p = Params { custom_assets: Vec::new() };
                proof {
                    assert(asset_pairs(p.custom_assets@) =~= assets_model(self.custom_assets));
                }
                p
            },
        }
    }
}

} // verus!
