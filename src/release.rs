use vstd::prelude::*;

verus! {

/// Name of the published package: the archive, cache directory and installed
/// executable are all named after it.
pub const PACKAGE_NAME: &'static str = "cognitive-complexity-ls";

/// Repository whose releases carry the packaged server.
pub const RELEASE_REPO: &'static str = "AhmmedSamier/cognitive-lens";

/// One downloadable file of a release.
pub struct AssetDescriptor {
    pub name: String,
    pub download_url: String,
}

/// A published release: its version tag and its assets, in order.
pub struct ReleaseDescriptor {
    pub version: String,
    pub assets: Vec<AssetDescriptor>,
}

/// File name of the release archive of `package`.
pub open spec fn asset_file(package: Seq<char>) -> Seq<char> {
    package + ".zip"@
}

/// Name of the cache directory for version `version` of `package`.
pub open spec fn version_dir(package: Seq<char>, version: Seq<char>) -> Seq<char> {
    package + "-"@ + version
}

/// `<package>.zip`.
pub fn asset_file_name(package: &str) -> (r: String)
    ensures
        r@ == asset_file(package@),
{
    let mut r = package.to_owned();
    r.append(".zip");
    r
}

/// `<package>-<version>`.
pub fn version_dir_name(package: &str, version: &str) -> (r: String)
    ensures
        r@ == version_dir(package@, version@),
{
    let mut r = package.to_owned();
    r.append("-");
    r.append(version);
    r
}

impl ReleaseDescriptor {
    /// The asset names, in order.
    pub open spec fn names(&self) -> Seq<Seq<char>> {
        self.assets@.map_values(|a: AssetDescriptor| a.name@)
    }

    /// Whether some asset is named `name`.
    pub open spec fn has_asset(&self, name: Seq<char>) -> bool {
        exists|i: int| 0 <= i < self.assets@.len() && #[trigger] self.assets@[i].name@ == name
    }

    /// Index of the first asset named exactly `name`, if any.
    pub fn find_asset(&self, name: &String) -> (r: Option<usize>)
        ensures
            r matches Some(i) ==> {
                &&& i < self.assets@.len()
                &&& self.assets@[i as int].name@ == name@
                &&& forall|j: int| 0 <= j < i ==> #[trigger] self.assets@[j].name@ != name@
            },
            r is None <==> !self.has_asset(name@),
    {
        let mut i: usize = 0;
        while i < self.assets.len()
            invariant
                i <= self.assets@.len(),
                forall|j: int| 0 <= j < i ==> #[trigger] self.assets@[j].name@ != name@,
            decreases self.assets@.len() - i,
        {
            if self.assets[i].name == *name {
                return Some(i);
            }
            i = i + 1;
        }
        None
    }
}

} // verus!
