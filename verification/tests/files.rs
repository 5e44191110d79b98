use cdk_scaffold::error::RemoteSource;
use cdk_scaffold::error::ScaffoldError;
use cdk_scaffold::fileset::load_templates;
use cdk_scaffold::fileset::resolve_destinations;
use cdk_scaffold::fileset::substitute;
use cdk_scaffold::fileset::token_lower;
use cdk_scaffold::fileset::token_pascal;
use cdk_scaffold::name::validate;
use cdk_scaffold::subst::contains_token;
use cdk_scaffold::subst::replacement_safe_check;

use include_assets::do_not_use_this_directly::codec::Uncompressed;
use include_assets::CompressedNamedArchive;
use include_assets::NamedArchive;

fn b(s: &str) -> Vec<u8> {
    s.as_bytes().to_vec()
}

/// An uncompressed in-memory archive with the given named assets.
fn make_archive(entries: &[(&str, &str)]) -> NamedArchive {
    let mut names: Vec<u8> = Vec::new();
    let mut data: Vec<u8> = Vec::new();
    let mut sizes: Vec<u8> = Vec::new();
    let mut checksums: Vec<[u8; 64]> = Vec::new();
    for (i, (name, content)) in entries.iter().enumerate() {
        if i > 0 {
            names.push(0);
        }
        names.extend_from_slice(name.as_bytes());
        data.extend_from_slice(content.as_bytes());
        sizes.extend_from_slice(&(content.len() as u32).to_le_bytes());
        checksums.push([0u8; 64]);
    }
    let uncompressed_data_size = data.len() as u32;
    let uncompressed_names_size = names.len() as u32;
    NamedArchive::load(CompressedNamedArchive {
        codec: Uncompressed {},
        data: Box::leak(data.into_boxed_slice()),
        uncompressed_data_size,
        compressed_names: Box::leak(names.into_boxed_slice()),
        uncompressed_names_size,
        checksums: Box::leak(checksums.into_boxed_slice()),
        compressed_sizes: Box::leak(sizes.into_boxed_slice()),
    })
}

const TEMPLATES: [(&str, &str); 11] = [
    (".gitignore", "node_modules\ncdk.out\n"),
    ("cdk.json", "{\"app\": \"npx tsx bin/lowercase-name.ts\"}"),
    ("package.json", "{\"name\": \"lowercase-name\"}"),
    ("vitest.config.ts", "export default {};\n"),
    ("binfile.ts", "import { lowercase-name } from '../lib/lowercase-name-stack'; new pascalcase-nameStack();"),
    ("testfile.ts", "describe('pascalcase-name', () => {});"),
    ("contextfile.ts", "export const context = {};\n"),
    ("libfile.ts", "export class pascalcase-nameStack {}\n"),
    ("srcfile.ts", "export const handler = async () => {};\n"),
    ("payload.json", "{}\n"),
    ("cdk.context.json", "{\"acknowledged-issue-numbers\": []}\n"),
];

#[test]
fn substitute_replaces_both_tokens() {
    let out = substitute(
        &b("bin lowercase-name and pascalcase-name end"),
        &b("myapp"),
        &b("MyApp"),
    );
    assert_eq!(out, b("bin myapp and MyApp end"));
}

#[test]
fn substitute_replaces_every_occurrence() {
    let out = substitute(
        &b("lowercase-name/lowercase-name pascalcase-name pascalcase-name"),
        &b("a"),
        &b("B"),
    );
    assert_eq!(out, b("a/a B B"));
}

#[test]
fn substitute_leaves_token_free_text_alone() {
    let text = b("nothing to see here");
    assert_eq!(substitute(&text, &b("x"), &b("Y")), text);
}

#[test]
fn plain_name_forms_are_safe_replacements() {
    assert!(replacement_safe_check(&token_lower(), &b("mycdkapp")));
    assert!(replacement_safe_check(&token_lower(), &b("MyCdkApp")));
}

#[test]
fn a_replacement_that_can_complete_a_token_is_unsafe() {
    // A pascal form ending in `p` can butt against following text and spell
    // out `pascalcase-name` across the seam; the safety check refuses it,
    // and an adversarial template shows why.
    assert!(!replacement_safe_check(&token_pascal(), &b("MyCdkApp")));
    let out = substitute(&b("pascalcase-nameascalcase-name"), &b("mycdkapp"), &b("MyCdkApp"));
    assert_eq!(out, b("MyCdkAppascalcase-name"));
    assert!(contains_token(&out, &token_pascal()));
}

#[test]
fn a_replacement_that_a_token_tail_starts_is_unsafe() {
    // A lower form beginning like the tail of `lowercase-name` lets a
    // partial token in the template complete into a full one.
    assert!(!replacement_safe_check(&token_lower(), &b("name")));
    let out = substitute(&b("lowercase-lowercase-name"), &b("name"), &b("Name"));
    assert_eq!(out, b("lowercase-name"));
    assert!(contains_token(&out, &token_lower()));
}

#[test]
fn contains_token_finds_and_misses() {
    assert!(contains_token(&b("a lowercase-name b"), &token_lower()));
    assert!(!contains_token(&b("a lowercase-nam b"), &token_lower()));
}

#[test]
fn full_file_set_has_the_thirteen_files() {
    let archive = make_archive(&TEMPLATES);
    let names = validate(&b("my-cdk-app")).unwrap();
    let files = load_templates(
        &archive,
        &names,
        Ok(b("{\"compilerOptions\": {}}")),
        Ok(b("{\"linter\": {}}")),
    )
    .unwrap();
    let paths: Vec<Vec<u8>> = files.iter().map(|f| f.path.clone()).collect();
    let expected: Vec<Vec<u8>> = [
        ".gitignore",
        "biome.json",
        "cdk.json",
        "package.json",
        "tsconfig.json",
        "vitest.config.ts",
        "bin/mycdkapp.ts",
        "test/mycdkapp.test.ts",
        "test/context.ts",
        "lib/mycdkapp-stack.ts",
        "src/index.ts",
        "events/payload.json",
        "cdk.context.json",
    ]
    .iter()
    .map(|p| b(p))
    .collect();
    assert_eq!(paths, expected);
}

#[test]
fn file_contents_are_substituted_and_remote_documents_kept() {
    let archive = make_archive(&TEMPLATES);
    let names = validate(&b("my-cdk-app")).unwrap();
    let files = load_templates(
        &archive,
        &names,
        Ok(b("{\"compilerOptions\": {}}")),
        Ok(b("{\"linter\": {}}")),
    )
    .unwrap();
    assert_eq!(files[1].content, b("{\"linter\": {}}"));
    assert_eq!(files[3].content, b("{\"name\": \"mycdkapp\"}"));
    assert_eq!(files[4].content, b("{\"compilerOptions\": {}}"));
    assert_eq!(files[9].content, b("export class MyCdkAppStack {}\n"));
    assert_eq!(
        files[6].content,
        b("import { mycdkapp } from '../lib/mycdkapp-stack'; new MyCdkAppStack();"),
    );
}

#[test]
fn no_placeholder_survives_substitution() {
    let archive = make_archive(&TEMPLATES);
    let names = validate(&b("my-cdk-app")).unwrap();
    let files = load_templates(&archive, &names, Ok(b("{}")), Ok(b("{}"))).unwrap();
    let lower_token = token_lower();
    let pascal_token = token_pascal();
    for f in &files {
        assert!(!contains_token(&f.content, &lower_token));
        assert!(!contains_token(&f.content, &pascal_token));
    }
}

#[test]
fn missing_asset_is_a_packaging_error() {
    let without_lib: Vec<(&str, &str)> =
        TEMPLATES.iter().filter(|(n, _)| *n != "libfile.ts").cloned().collect();
    let archive = make_archive(&without_lib);
    let names = validate(&b("my-cdk-app")).unwrap();
    let r = load_templates(&archive, &names, Ok(b("{}")), Ok(b("{}")));
    match r {
        Err(ScaffoldError::PackagingError { asset }) => assert_eq!(asset, b("libfile.ts")),
        other => panic!("expected a packaging error, got ok={}", other.is_ok()),
    }
}

#[test]
fn failed_tsconfig_fetch_aborts_the_load() {
    let archive = make_archive(&TEMPLATES);
    let names = validate(&b("my-cdk-app")).unwrap();
    let r = load_templates(&archive, &names, Err(b("status 404")), Ok(b("{}")));
    match r {
        Err(ScaffoldError::RemoteFetchError { source, detail }) => {
            assert!(matches!(source, RemoteSource::TsConfig));
            assert_eq!(detail, b("status 404"));
        },
        other => panic!("expected a fetch error, got ok={}", other.is_ok()),
    }
}

#[test]
fn failed_biome_fetch_aborts_the_load() {
    let archive = make_archive(&TEMPLATES);
    let names = validate(&b("my-cdk-app")).unwrap();
    let r = load_templates(&archive, &names, Ok(b("{}")), Err(b("connection refused")));
    match r {
        Err(ScaffoldError::RemoteFetchError { source, detail }) => {
            assert!(matches!(source, RemoteSource::BiomeConfig));
            assert_eq!(detail, b("connection refused"));
        },
        other => panic!("expected a fetch error, got ok={}", other.is_ok()),
    }
}

#[test]
fn destinations_join_under_the_project_root() {
    let archive = make_archive(&TEMPLATES);
    let names = validate(&b("my-cdk-app")).unwrap();
    let files = load_templates(&archive, &names, Ok(b("{}")), Ok(b("{}"))).unwrap();
    let joined = resolve_destinations(&b("./my-cdk-app"), &files);
    assert_eq!(joined.len(), 13);
    assert_eq!(joined[0].path, b("./my-cdk-app/.gitignore"));
    assert_eq!(joined[6].path, b("./my-cdk-app/bin/mycdkapp.ts"));
    assert_eq!(joined[6].content, files[6].content);
}
