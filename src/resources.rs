use vstd::prelude::*;
use vstd::string::StringExecFns;

verus! {

/// Path, under a resource directory, of the analyzer's system dictionary.
pub open spec fn dict_path_of(base_dir: Seq<char>) -> Seq<char> {
    base_dir + "/downloaded/dict/open_jtalk_dic_utf_8-1.11"@
}

/// Path, under a resource directory, of the sample voice model.
pub open spec fn vvm_path_of(base_dir: Seq<char>) -> Seq<char> {
    base_dir + "/downloaded/0.vvm"@
}

/// Where the system dictionary lies under the resource directory `base_dir`.
pub fn get_dict_path(base_dir: &str) -> (r: String)
    ensures
        r@ == dict_path_of(base_dir@),
{
    let mut p = base_dir.to_string();
    p.append("/downloaded/dict/open_jtalk_dic_utf_8-1.11");
    p
}

/// Where the sample voice model lies under the resource directory
/// `base_dir`.
pub fn get_vvm_path(base_dir: &str) -> (r: String)
    ensures
        r@ == vvm_path_of(base_dir@),
{
    let mut p = base_dir.to_string();
    p.append("/downloaded/0.vvm");
    p
}

} // verus!
