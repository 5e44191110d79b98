//! Resolution of every generated file: embedded templates are fetched from
//! the bundle, placeholder tokens are substituted, the two remote
//! configuration documents are taken as given, and each content is paired
//! with its destination path relative to the project root.
use vstd::prelude::*;

use include_assets::NamedArchive;

use crate::archive::archive_contents;
use crate::archive::archive_get;
use crate::error::RemoteSource;
use crate::error::ScaffoldError;
use crate::name::AppNameSet;
use crate::subst::replace_all;
use crate::subst::replace_spec;
use crate::text::ascii_bytes;
use crate::text::concat3;
use crate::text::str_to_bytes;
use vstd::slice::slice_to_vec;

verus! {

/// The placeholder replaced by the `lower` name form.
pub open spec fn token_lower_spec() -> Seq<u8> {
    ascii_bytes("lowercase-name"@)
}

/// The placeholder replaced by the `pascal` name form.
pub open spec fn token_pascal_spec() -> Seq<u8> {
    ascii_bytes("pascalcase-name"@)
}

/// Both placeholders substituted: first every `lowercase-name`, then every
/// `pascalcase-name` in the result.
pub open spec fn subst_spec(content: Seq<u8>, lower: Seq<u8>, pascal: Seq<u8>) -> Seq<u8> {
    replace_spec(replace_spec(content, token_lower_spec(), lower), token_pascal_spec(), pascal)
}

/// The `lowercase-name` placeholder as bytes.
pub fn token_lower() -> (r: Vec<u8>)
    ensures
        r@ == token_lower_spec(),
        r@.len() == 14,
{
    proof {
        reveal_strlit("lowercase-name");
        assert(vstd::string::is_ascii("lowercase-name"));
    }
    str_to_bytes("lowercase-name")
}

/// The `pascalcase-name` placeholder as bytes.
pub fn token_pascal() -> (r: Vec<u8>)
    ensures
        r@ == token_pascal_spec(),
        r@.len() == 15,
{
    proof {
        reveal_strlit("pascalcase-name");
        assert(vstd::string::is_ascii("pascalcase-name"));
    }
    str_to_bytes("pascalcase-name")
}

/// Both placeholders substituted, per [`subst_spec`].
pub fn substitute(content: &Vec<u8>, lower: &Vec<u8>, pascal: &Vec<u8>) -> (r: Vec<u8>)
    ensures
        r@ == subst_spec(content@, lower@, pascal@),
{
    let t1 = token_lower();
    let t2 = token_pascal();
    let step = replace_all(content, &t1, lower);
    replace_all(&step, &t2, pascal)
}

/// Substitution leaves no placeholder behind: when both name forms are safe
/// replacements — they cannot complete, start, or wrap a placeholder at the
/// seams of a replacement — the substituted content holds zero occurrences
/// of either token, whatever the template was.
pub proof fn lemma_substitution_removes_tokens(content: Seq<u8>, lower: Seq<u8>, pascal: Seq<u8>)
    requires
        crate::subst::replacement_safe(token_lower_spec(), lower),
        crate::subst::replacement_safe(token_pascal_spec(), pascal),
        crate::subst::replacement_safe(token_lower_spec(), pascal),
    ensures
        !crate::subst::has_token(subst_spec(content, lower, pascal), token_lower_spec()),
        !crate::subst::has_token(subst_spec(content, lower, pascal), token_pascal_spec()),
{
    let step = replace_spec(content, token_lower_spec(), lower);
    crate::subst::lemma_replace_introduces_no_token(
        content,
        token_lower_spec(),
        lower,
        token_lower_spec(),
    );
    crate::subst::lemma_replace_introduces_no_token(
        step,
        token_pascal_spec(),
        pascal,
        token_pascal_spec(),
    );
    crate::subst::lemma_replace_introduces_no_token(
        step,
        token_pascal_spec(),
        pascal,
        token_lower_spec(),
    );
}

/// Across the resolved file set, no substituted template retains either
/// placeholder: every entry except the two remote documents (`biome.json`
/// at index 1 and `tsconfig.json` at index 4, which are never substituted)
/// holds zero occurrences of both tokens.
pub proof fn lemma_file_set_token_free(
    contents: Map<Seq<u8>, Seq<u8>>,
    lower: Seq<u8>,
    pascal: Seq<u8>,
    tsconfig: Seq<u8>,
    biome: Seq<u8>,
)
    requires
        crate::subst::replacement_safe(token_lower_spec(), lower),
        crate::subst::replacement_safe(token_pascal_spec(), pascal),
        crate::subst::replacement_safe(token_lower_spec(), pascal),
    ensures
        forall|i: int|
            0 <= i < 13 && i != 1 && i != 4 ==> {
                let c = #[trigger] file_contents_spec(contents, lower, pascal, tsconfig, biome)[i];
                !crate::subst::has_token(c, token_lower_spec()) && !crate::subst::has_token(
                    c,
                    token_pascal_spec(),
                )
            },
{
    assert forall|i: int| 0 <= i < 13 && i != 1 && i != 4 implies {
        let c = #[trigger] file_contents_spec(contents, lower, pascal, tsconfig, biome)[i];
        !crate::subst::has_token(c, token_lower_spec()) && !crate::subst::has_token(
            c,
            token_pascal_spec(),
        )
    } by {
        if i == 0 {
            lemma_substitution_removes_tokens(contents[ascii_bytes(".gitignore"@)], lower, pascal);
        } else if i == 2 {
            lemma_substitution_removes_tokens(contents[ascii_bytes("cdk.json"@)], lower, pascal);
        } else if i == 3 {
            lemma_substitution_removes_tokens(
                contents[ascii_bytes("package.json"@)],
                lower,
                pascal,
            );
        } else if i == 5 {
            lemma_substitution_removes_tokens(
                contents[ascii_bytes("vitest.config.ts"@)],
                lower,
                pascal,
            );
        } else if i == 6 {
            lemma_substitution_removes_tokens(contents[ascii_bytes("binfile.ts"@)], lower, pascal);
        } else if i == 7 {
            lemma_substitution_removes_tokens(
                contents[ascii_bytes("testfile.ts"@)],
                lower,
                pascal,
            );
        } else if i == 8 {
            lemma_substitution_removes_tokens(
                contents[ascii_bytes("contextfile.ts"@)],
                lower,
                pascal,
            );
        } else if i == 9 {
            lemma_substitution_removes_tokens(contents[ascii_bytes("libfile.ts"@)], lower, pascal);
        } else if i == 10 {
            lemma_substitution_removes_tokens(contents[ascii_bytes("srcfile.ts"@)], lower, pascal);
        } else if i == 11 {
            lemma_substitution_removes_tokens(
                contents[ascii_bytes("payload.json"@)],
                lower,
                pascal,
            );
        } else {
            lemma_substitution_removes_tokens(
                contents[ascii_bytes("cdk.context.json"@)],
                lower,
                pascal,
            );
        }
    }
}

/// One generated file: its destination path relative to the project root,
/// and its final content.
pub struct FileEntry {
    pub path: Vec<u8>,
    pub content: Vec<u8>,
}

/// The names of the eleven embedded template assets, in lookup order.
pub open spec fn required_assets_spec() -> Seq<Seq<u8>> {
    seq![
        ascii_bytes(".gitignore"@),
        ascii_bytes("cdk.json"@),
        ascii_bytes("package.json"@),
        ascii_bytes("vitest.config.ts"@),
        ascii_bytes("binfile.ts"@),
        ascii_bytes("testfile.ts"@),
        ascii_bytes("contextfile.ts"@),
        ascii_bytes("libfile.ts"@),
        ascii_bytes("srcfile.ts"@),
        ascii_bytes("payload.json"@),
        ascii_bytes("cdk.context.json"@),
    ]
}

/// `name` is one of the required embedded assets.
pub open spec fn is_required_asset(name: Seq<u8>) -> bool {
    exists|i: int| 0 <= i < required_assets_spec().len() && required_assets_spec()[i] == name
}

/// Every required embedded asset is present in the bundle.
pub open spec fn assets_complete(contents: Map<Seq<u8>, Seq<u8>>) -> bool {
    forall|i: int|
        0 <= i < required_assets_spec().len() ==> contents.contains_key(
            #[trigger] required_assets_spec()[i],
        )
}

/// The thirteen destination paths, in the order the file set is produced.
pub open spec fn file_paths_spec(lower: Seq<u8>) -> Seq<Seq<u8>> {
    seq![
        ascii_bytes(".gitignore"@),
        ascii_bytes("biome.json"@),
        ascii_bytes("cdk.json"@),
        ascii_bytes("package.json"@),
        ascii_bytes("tsconfig.json"@),
        ascii_bytes("vitest.config.ts"@),
        ascii_bytes("bin/"@) + lower + ascii_bytes(".ts"@),
        ascii_bytes("test/"@) + lower + ascii_bytes(".test.ts"@),
        ascii_bytes("test/context.ts"@),
        ascii_bytes("lib/"@) + lower + ascii_bytes("-stack.ts"@),
        ascii_bytes("src/index.ts"@),
        ascii_bytes("events/payload.json"@),
        ascii_bytes("cdk.context.json"@),
    ]
}

/// The thirteen final contents, aligned with [`file_paths_spec`]: embedded
/// templates with both placeholders substituted, the two remote documents
/// unchanged.
pub open spec fn file_contents_spec(
    contents: Map<Seq<u8>, Seq<u8>>,
    lower: Seq<u8>,
    pascal: Seq<u8>,
    tsconfig: Seq<u8>,
    biome: Seq<u8>,
) -> Seq<Seq<u8>> {
    seq![
        subst_spec(contents[ascii_bytes(".gitignore"@)], lower, pascal),
        biome,
        subst_spec(contents[ascii_bytes("cdk.json"@)], lower, pascal),
        subst_spec(contents[ascii_bytes("package.json"@)], lower, pascal),
        tsconfig,
        subst_spec(contents[ascii_bytes("vitest.config.ts"@)], lower, pascal),
        subst_spec(contents[ascii_bytes("binfile.ts"@)], lower, pascal),
        subst_spec(contents[ascii_bytes("testfile.ts"@)], lower, pascal),
        subst_spec(contents[ascii_bytes("contextfile.ts"@)], lower, pascal),
        subst_spec(contents[ascii_bytes("libfile.ts"@)], lower, pascal),
        subst_spec(contents[ascii_bytes("srcfile.ts"@)], lower, pascal),
        subst_spec(contents[ascii_bytes("payload.json"@)], lower, pascal),
        subst_spec(contents[ascii_bytes("cdk.context.json"@)], lower, pascal),
    ]
}

/// The file set with every destination joined under the given project root
/// directory, contents unchanged.
pub fn resolve_destinations(base: &Vec<u8>, files: &Vec<FileEntry>) -> (r: Vec<FileEntry>)
    ensures
        r@.len() == files@.len(),
        forall|i: int|
            0 <= i < files@.len() ==> (#[trigger] r@[i]).path@ == base@ + ascii_bytes("/"@)
                + files@[i].path@ && r@[i].content@ == files@[i].content@,
{
    proof {
        reveal_strlit("/");
        assert(vstd::string::is_ascii("/"));
    }
    let sep = str_to_bytes("/");
    let mut r: Vec<FileEntry> = Vec::new();
    let mut i: usize = 0;
    while i < files.len()
        invariant
            i <= files.len(),
            sep@ == ascii_bytes("/"@),
            r@.len() == i,
            forall|k: int|
                0 <= k < i ==> (#[trigger] r@[k]).path@ == base@ + ascii_bytes("/"@)
                    + files@[k].path@ && r@[k].content@ == files@[k].content@,
        decreases files.len() - i,
    {
        let entry = &files[i];
        r.push(
            FileEntry {
                path: concat3(base, &sep, &entry.path),
                content: crate::text::copy_bytes(&entry.content),
            },
        );
        i += 1;
    }
    r
}

/// Fetch one embedded asset; a miss is a fatal packaging error naming the
/// asset.
fn get_asset(archive: &NamedArchive, name: &str) -> (r: Result<Vec<u8>, ScaffoldError>)
    requires
        name.is_ascii(),
    ensures
        r matches Ok(content) ==> archive_contents(archive).contains_key(ascii_bytes(name@))
            && content@ == archive_contents(archive)[ascii_bytes(name@)],
        r matches Err(e) ==> !archive_contents(archive).contains_key(ascii_bytes(name@)) && (
        e matches ScaffoldError::PackagingError { asset } && asset@ == ascii_bytes(name@)),
{
    let name_bytes = str_to_bytes(name);
    match archive_get(archive, &name_bytes) {
        Some(content) => Ok(slice_to_vec(content)),
        None => Err(ScaffoldError::PackagingError { asset: name_bytes }),
    }
}

/// Resolve the complete file set.
///
/// `tsconfig` and `biome` are the outcomes of the two remote fetches, body
/// bytes on success and transport error text on failure. The result is the
/// full thirteen-entry file set exactly when both fetches succeeded and
/// every embedded asset is present; otherwise the specific failure.
pub fn load_templates(
    archive: &NamedArchive,
    names: &AppNameSet,
    tsconfig: Result<Vec<u8>, Vec<u8>>,
    biome: Result<Vec<u8>, Vec<u8>>,
) -> (r: Result<Vec<FileEntry>, ScaffoldError>)
    ensures
        r is Ok <==> (tsconfig is Ok && biome is Ok && assets_complete(
            archive_contents(archive),
        )),
        r matches Ok(files) ==> {
            &&& files@.len() == 13
            &&& forall|i: int|
                0 <= i < 13 ==> (#[trigger] files@[i]).path@ == file_paths_spec(names.lower@)[i]
            &&& forall|i: int|
                0 <= i < 13 ==> (#[trigger] files@[i]).content@ == file_contents_spec(
                    archive_contents(archive),
                    names.lower@,
                    names.pascal@,
                    tsconfig->Ok_0@,
                    biome->Ok_0@,
                )[i]
        },
        tsconfig matches Err(d) ==> (r matches Err(e) && e matches
            ScaffoldError::RemoteFetchError { source, detail } && source is TsConfig && detail@
            == d@),
        tsconfig is Ok ==> (biome matches Err(d) ==> (r matches Err(e) && e matches
            ScaffoldError::RemoteFetchError { source, detail } && source is BiomeConfig
            && detail@ == d@)),
        (tsconfig is Ok && biome is Ok) ==> (r matches Err(e) ==> (e matches
            ScaffoldError::PackagingError { asset } && is_required_asset(asset@)
            && !archive_contents(archive).contains_key(asset@))),
{
    let ts_body = match tsconfig {
        Ok(body) => body,
        Err(detail) => {
            return Err(
                ScaffoldError::RemoteFetchError { source: RemoteSource::TsConfig, detail },
            );
        },
    };
    let biome_body = match biome {
        Ok(body) => body,
        Err(detail) => {
            return Err(
                ScaffoldError::RemoteFetchError { source: RemoteSource::BiomeConfig, detail },
            );
        },
    };
    proof {
        reveal_strlit(".gitignore");
        reveal_strlit("cdk.json");
        reveal_strlit("package.json");
        reveal_strlit("vitest.config.ts");
        reveal_strlit("binfile.ts");
        reveal_strlit("testfile.ts");
        reveal_strlit("contextfile.ts");
        reveal_strlit("libfile.ts");
        reveal_strlit("srcfile.ts");
        reveal_strlit("payload.json");
        reveal_strlit("cdk.context.json");
        assert(vstd::string::is_ascii(".gitignore"));
        assert(vstd::string::is_ascii("cdk.json"));
        assert(vstd::string::is_ascii("package.json"));
        assert(vstd::string::is_ascii("vitest.config.ts"));
        assert(vstd::string::is_ascii("binfile.ts"));
        assert(vstd::string::is_ascii("testfile.ts"));
        assert(vstd::string::is_ascii("contextfile.ts"));
        assert(vstd::string::is_ascii("libfile.ts"));
        assert(vstd::string::is_ascii("srcfile.ts"));
        assert(vstd::string::is_ascii("payload.json"));
        assert(vstd::string::is_ascii("cdk.context.json"));
    }
    let gitignore = match get_asset(archive, ".gitignore") {
        Ok(c) => c,
        Err(e) => {
            proof {
                assert(required_assets_spec()[0] == ascii_bytes(".gitignore"@));
            }
            return Err(e);
        },
    };
    let cdk_json = match get_asset(archive, "cdk.json") {
        Ok(c) => c,
        Err(e) => {
            proof {
                assert(required_assets_spec()[1] == ascii_bytes("cdk.json"@));
            }
            return Err(e);
        },
    };
    let package_json = match get_asset(archive, "package.json") {
        Ok(c) => c,
        Err(e) => {
            proof {
                assert(required_assets_spec()[2] == ascii_bytes("package.json"@));
            }
            return Err(e);
        },
    };
    let vitest_config = match get_asset(archive, "vitest.config.ts") {
        Ok(c) => c,
        Err(e) => {
            proof {
                assert(required_assets_spec()[3] == ascii_bytes("vitest.config.ts"@));
            }
            return Err(e);
        },
    };
    let bin_file = match get_asset(archive, "binfile.ts") {
        Ok(c) => c,
        Err(e) => {
            proof {
                assert(required_assets_spec()[4] == ascii_bytes("binfile.ts"@));
            }
            return Err(e);
        },
    };
    let test_file = match get_asset(archive, "testfile.ts") {
        Ok(c) => c,
        Err(e) => {
            proof {
                assert(required_assets_spec()[5] == ascii_bytes("testfile.ts"@));
            }
            return Err(e);
        },
    };
    let context_file = match get_asset(archive, "contextfile.ts") {
        Ok(c) => c,
        Err(e) => {
            proof {
                assert(required_assets_spec()[6] == ascii_bytes("contextfile.ts"@));
            }
            return Err(e);
        },
    };
    let lib_file = match get_asset(archive, "libfile.ts") {
        Ok(c) => c,
        Err(e) => {
            proof {
                assert(required_assets_spec()[7] == ascii_bytes("libfile.ts"@));
            }
            return Err(e);
        },
    };
    let src_file = match get_asset(archive, "srcfile.ts") {
        Ok(c) => c,
        Err(e) => {
            proof {
                assert(required_assets_spec()[8] == ascii_bytes("srcfile.ts"@));
            }
            return Err(e);
        },
    };
    let payload_json = match get_asset(archive, "payload.json") {
        Ok(c) => c,
        Err(e) => {
            proof {
                assert(required_assets_spec()[9] == ascii_bytes("payload.json"@));
            }
            return Err(e);
        },
    };
    let cdk_context = match get_asset(archive, "cdk.context.json") {
        Ok(c) => c,
        Err(e) => {
            proof {
                assert(required_assets_spec()[10] == ascii_bytes("cdk.context.json"@));
            }
            return Err(e);
        },
    };
    proof {
        assert forall|i: int| 0 <= i < required_assets_spec().len() implies archive_contents(
            archive,
        ).contains_key(#[trigger] required_assets_spec()[i]) by {
            if i == 0 {
            } else if i == 1 {
            } else if i == 2 {
            } else if i == 3 {
            } else if i == 4 {
            } else if i == 5 {
            } else if i == 6 {
            } else if i == 7 {
            } else if i == 8 {
            } else if i == 9 {
            } else {
                assert(required_assets_spec()[10] == ascii_bytes("cdk.context.json"@));
            }
        }
    }
    proof {
        reveal_strlit("bin/");
        reveal_strlit(".ts");
        reveal_strlit("test/");
        reveal_strlit(".test.ts");
        reveal_strlit("lib/");
        reveal_strlit("-stack.ts");
        reveal_strlit("biome.json");
        reveal_strlit("tsconfig.json");
        reveal_strlit("test/context.ts");
        reveal_strlit("src/index.ts");
        reveal_strlit("events/payload.json");
        assert(vstd::string::is_ascii("bin/"));
        assert(vstd::string::is_ascii(".ts"));
        assert(vstd::string::is_ascii("test/"));
        assert(vstd::string::is_ascii(".test.ts"));
        assert(vstd::string::is_ascii("lib/"));
        assert(vstd::string::is_ascii("-stack.ts"));
        assert(vstd::string::is_ascii("biome.json"));
        assert(vstd::string::is_ascii("tsconfig.json"));
        assert(vstd::string::is_ascii("test/context.ts"));
        assert(vstd::string::is_ascii("src/index.ts"));
        assert(vstd::string::is_ascii("events/payload.json"));
    }
    let mut files: Vec<FileEntry> = Vec::new();
    files.push(
        FileEntry {
            path: str_to_bytes(".gitignore"),
            content: substitute(&gitignore, &names.lower, &names.pascal),
        },
    );
    files.push(FileEntry { path: str_to_bytes("biome.json"), content: biome_body });
    files.push(
        FileEntry {
            path: str_to_bytes("cdk.json"),
            content: substitute(&cdk_json, &names.lower, &names.pascal),
        },
    );
    files.push(
        FileEntry {
            path: str_to_bytes("package.json"),
            content: substitute(&package_json, &names.lower, &names.pascal),
        },
    );
    files.push(FileEntry { path: str_to_bytes("tsconfig.json"), content: ts_body });
    files.push(
        FileEntry {
            path: str_to_bytes("vitest.config.ts"),
            content: substitute(&vitest_config, &names.lower, &names.pascal),
        },
    );
    files.push(
        FileEntry {
            path: concat3(&str_to_bytes("bin/"), &names.lower, &str_to_bytes(".ts")),
            content: substitute(&bin_file, &names.lower, &names.pascal),
        },
    );
    files.push(
        FileEntry {
            path: concat3(&str_to_bytes("test/"), &names.lower, &str_to_bytes(".test.ts")),
            content: substitute(&test_file, &names.lower, &names.pascal),
        },
    );
    files.push(
        FileEntry {
            path: str_to_bytes("test/context.ts"),
            content: substitute(&context_file, &names.lower, &names.pascal),
        },
    );
    files.push(
        FileEntry {
            path: concat3(&str_to_bytes("lib/"), &names.lower, &str_to_bytes("-stack.ts")),
            content: substitute(&lib_file, &names.lower, &names.pascal),
        },
    );
    files.push(
        FileEntry {
            path: str_to_bytes("src/index.ts"),
            content: substitute(&src_file, &names.lower, &names.pascal),
        },
    );
    files.push(
        FileEntry {
            path: str_to_bytes("events/payload.json"),
            content: substitute(&payload_json, &names.lower, &names.pascal),
        },
    );
    files.push(
        FileEntry {
            path: str_to_bytes("cdk.context.json"),
            content: substitute(&cdk_context, &names.lower, &names.pascal),
        },
    );
    proof {
        let paths = file_paths_spec(names.lower@);
        let cs = file_contents_spec(
            archive_contents(archive),
            names.lower@,
            names.pascal@,
            ts_body@,
            biome_body@,
        );
        assert forall|i: int| 0 <= i < 13 implies (#[trigger] files@[i]).path@ == paths[i] && (
        files@[i]).content@ == cs[i] by {
            assert(files@.len() == 13);
        }
    }
    Ok(files)
}

} // verus!
