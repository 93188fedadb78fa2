//! The geo databases: which files are fetched for a region, and from where.

use crate::cli::Region;
use vstd::prelude::*;
use vstd::string::*;

verus! {

/// One file to fetch, with the companion file that publishes its checksum.
#[derive(Debug)]
pub struct Asset {
    /// The name that the file is saved under.
    pub file_name: String,
    pub url: String,
    pub checksum_url: String,
}

/// The two database files, in the order they are fetched.
pub open spec fn geodat_names() -> Seq<Seq<char>> {
    seq!["geoip.dat"@, "geosite.dat"@]
}

/// The asset of one database file under a region's base URL.
pub open spec fn asset_ok(a: Asset, base: Seq<char>, name: Seq<char>) -> bool {
    &&& a.file_name@ == name
    &&& a.url@ == base + name
    &&& a.checksum_url@ == base + name + ".sha256sum"@
}

fn asset_for(base: &str, name: &str) -> (r: Asset)
    ensures
        asset_ok(r, base@, name@),
{
    let url = String::from_str(base).concat(name);
    let checksum_url = url.clone().concat(".sha256sum");
    Asset { file_name: String::from_str(name), url, checksum_url }
}

/// The files to fetch for a region: `geoip.dat` and `geosite.dat` under
/// the region's base URL, each with its `.sha256sum` companion.
pub fn geodat_assets(region: Region) -> (r: Vec<Asset>)
    ensures
        r@.len() == 2,
        forall|i: int| 0 <= i < 2 ==> asset_ok(#[trigger] r@[i], region.url_spec(), geodat_names()[i]),
{
    let base = region.url();
    let mut v: Vec<Asset> = Vec::new();
    v.push(asset_for(base, "geoip.dat"));
    v.push(asset_for(base, "geosite.dat"));
    v
}

} // verus!
