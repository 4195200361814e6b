//! The OBJ model loader's resource addressing. Reading and parsing the
//! files is host work; the adapter's own logic — where a resource lives
//! under the output directory — is decided and proved here.

use vstd::prelude::*;
use vstd::string::StringExecFns;

verus! {

/// A loader of OBJ models that resolves every file name under a fixed
/// output directory's `res` folder.
pub struct ObjWgpuModelLoaderAdapter {
    pub out_dir: String,
}

impl ObjWgpuModelLoaderAdapter {
    /// A loader rooted at the given output directory.
    pub fn new(out_dir: String) -> (r: ObjWgpuModelLoaderAdapter)
        ensures
            r.out_dir@ == out_dir@,
    {
        ObjWgpuModelLoaderAdapter { out_dir }
    }

    /// The path a resource file is read from: the output directory's `res`
    /// folder, then the file name.
    pub fn get_out_dir_path(&self, file_name: &str) -> (r: String)
        ensures
            r@ == self.out_dir@ + "/res/"@ + file_name@,
    {
        self.out_dir.clone().concat("/res/").concat(file_name)
    }
}

} // verus!
