//! The two remote configuration documents and their fixed source URLs.
use vstd::prelude::*;

use crate::error::RemoteSource;

verus! {

/// Where the TypeScript compiler configuration is fetched from.
pub fn tsconfig_url() -> (r: &'static str)
    ensures
        r@
            == "https://gist.github.com/dreamorosi/8785f2a8ae9e868be65de1a44018b936/raw/e7b125699fc752ac3cdfbe5a8528e7c00eb3220d/tsconfig.json"@,
{
    "https://gist.github.com/dreamorosi/8785f2a8ae9e868be65de1a44018b936/raw/e7b125699fc752ac3cdfbe5a8528e7c00eb3220d/tsconfig.json"
}

/// Where the linter/formatter configuration is fetched from.
pub fn biome_url() -> (r: &'static str)
    ensures
        r@
            == "https://gist.github.com/dreamorosi/3daec171ff98f2c921eb3a19459256dd/raw/076ca7b945de6577de0b467d6a269d8ea160561d/biome.json"@,
{
    "https://gist.github.com/dreamorosi/3daec171ff98f2c921eb3a19459256dd/raw/076ca7b945de6577de0b467d6a269d8ea160561d/biome.json"
}

/// The URL a failed fetch concerns.
pub fn url_of(source: &RemoteSource) -> (r: &'static str)
    ensures
        r@ == match source {
            RemoteSource::TsConfig =>
                "https://gist.github.com/dreamorosi/8785f2a8ae9e868be65de1a44018b936/raw/e7b125699fc752ac3cdfbe5a8528e7c00eb3220d/tsconfig.json"@,
            RemoteSource::BiomeConfig =>
                "https://gist.github.com/dreamorosi/3daec171ff98f2c921eb3a19459256dd/raw/076ca7b945de6577de0b467d6a269d8ea160561d/biome.json"@,
        },
{
    match source {
        RemoteSource::TsConfig => tsconfig_url(),
        RemoteSource::BiomeConfig => biome_url(),
    }
}

} // verus!
