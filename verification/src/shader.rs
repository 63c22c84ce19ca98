use vstd::prelude::*;

verus! {

/// Loads shader assets from their bytes.
#[derive(Clone, Copy, Debug, Default)]
pub struct ShaderLoader;

/// Where a shader asset's code comes from.
#[derive(Clone, Debug, PartialEq, Eq)]
pub enum ShaderAsset {
    SpirV(Vec<u8>),
}

/// Why a shader asset is refused.
#[derive(Clone, Debug, PartialEq, Eq)]
pub enum ShaderAssetError {
    UnsupportedExtension(String),
}

impl ShaderLoader {
    /// Reads a shader asset: a file with the `spv` extension is SPIR-V;
    /// any other extension is refused, and named in the error.
    pub fn load(&self, extension: &str, bytes: &[u8]) -> (r: Result<ShaderAsset, ShaderAssetError>)
        ensures
            extension@ == "spv"@ ==> (r matches Ok(ShaderAsset::SpirV(code)) && code@ == bytes@),
            extension@ != "spv"@ ==> (r matches Err(ShaderAssetError::UnsupportedExtension(e)) && e@ == extension@),
    {
        let ext = String::from_str(extension);
        let spv = String::from_str("spv");
        if ext.eq(&spv) {
            let mut code: Vec<u8> = Vec::new();
            let mut k: usize = 0;
            while k < bytes.len()
                invariant
                    k <= bytes@.len(),
                    code@ == bytes@.take(k as int),
                decreases bytes.len() - k,
            {
                code.push(bytes[k]);
                assert(bytes@.take(k + 1) =~= bytes@.take(k as int).push(bytes@[k as int]));
                k = k + 1;
            }
            assert(bytes@.take(k as int) =~= bytes@);
            Ok(ShaderAsset::SpirV(code))
        } else {
            Err(ShaderAssetError::UnsupportedExtension(ext))
        }
    }
}

} // verus!
