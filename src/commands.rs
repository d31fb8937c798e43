//! The fixed per-language template sets used when no project is detected.
use vstd::prelude::*;
use crate::text::str_eq;

verus! {

/// The view of a table of named templates.
pub open spec fn pairs_view(t: Seq<(&'static str, &'static str)>) -> Seq<(Seq<char>, Seq<char>)> {
    t.map_values(|p: (&'static str, &'static str)| (p.0@, p.1@))
}

/// The fixed templates for `rust`.
pub open spec fn rust_language_table() -> Seq<(Seq<char>, Seq<char>)> {
    seq![
        ("review-performance"@, "Analyze the performance characteristics of this code and suggest improvements to make it faster or more efficient:"@),
        ("generate-tests"@, "Generate unit tests for the following function using a common testing framework such as Rust’s built-in test framework:"@),
        ("summarize-diff"@, "Summarize the following Git diff in natural language, describing what changed and why:"@),
        ("readme-generator"@, "Based on this Rust project’s structure and content, generate a complete README.md file:"@),
    ]
}

/// The fixed templates for `typescript`.
pub open spec fn typescript_language_table() -> Seq<(Seq<char>, Seq<char>)> {
    seq![
        ("explain-code"@, "Explain the following TypeScript code in detail:"@),
        ("add-jsdoc"@, "Add JSDoc comments to the following TypeScript code:"@),
        ("generate-tests"@, "Generate unit tests for the following TypeScript function using Jest:"@),
        ("commit-conventional"@, "Generate a Conventional Commit-style message for the following code diff:"@),
    ]
}

/// The language a fixed template set is for, and the set, in order.
pub open spec fn language_table() -> Seq<(Seq<char>, Seq<(Seq<char>, Seq<char>)>)> {
    seq![("rust"@, rust_language_table()), ("typescript"@, typescript_language_table())]
}

/// The fixed template set for language `lang`, where there is one.
pub open spec fn language_templates(lang: Seq<char>) -> Option<Seq<(Seq<char>, Seq<char>)>> {
    if lang == "rust"@ {
        Some(rust_language_table())
    } else if lang == "typescript"@ {
        Some(typescript_language_table())
    } else {
        None
    }
}

/// The view of a list of owned (name, text) pairs.
pub open spec fn owned_view(v: Seq<(String, String)>) -> Seq<(Seq<char>, Seq<char>)> {
    v.map_values(|p: (String, String)| (p.0@, p.1@))
}

/// Each language with a fixed template set, and its set.
pub fn get_language_templates() -> (r: Vec<(&'static str, Vec<(&'static str, &'static str)>)>)
    ensures
        r@.len() == language_table().len(),
        forall|i: int|
            0 <= i < r@.len() ==> (#[trigger] r@[i]).0@ == language_table()[i].0 && pairs_view(
                r@[i].1@,
            ) == language_table()[i].1,
{

    let rust = vec![
        ("review-performance", "Analyze the performance characteristics of this code and suggest improvements to make it faster or more efficient:"),
        ("generate-tests", "Generate unit tests for the following function using a common testing framework such as Rust’s built-in test framework:"),
        ("summarize-diff", "Summarize the following Git diff in natural language, describing what changed and why:"),
        ("readme-generator", "Based on this Rust project’s structure and content, generate a complete README.md file:"),
    ];
    proof {
        assert(pairs_view(rust@) =~= rust_language_table());
    }
    let typescript = vec![
        ("explain-code", "Explain the following TypeScript code in detail:"),
        ("add-jsdoc", "Add JSDoc comments to the following TypeScript code:"),
        ("generate-tests", "Generate unit tests for the following TypeScript function using Jest:"),
        ("commit-conventional", "Generate a Conventional Commit-style message for the following code diff:"),
    ];
    proof {
        assert(pairs_view(typescript@) =~= typescript_language_table());
    }
    let ghost rv = rust@;
    let ghost tv = typescript@;
    let r = vec![("rust", rust), ("typescript", typescript)];
    proof {
        assert(r@[0].1@ == rv);
        assert(r@[1].1@ == tv);
    }
    r
}

/// The fixed template set for language `lang` as owned (name, text) pairs; `None` for a
/// language without one.
pub fn legacy_templates_for(lang: &str) -> (r: Option<Vec<(String, String)>>)
    ensures
        match r {
            Some(v) => language_templates(lang@) == Some(owned_view(v@)),
            None => language_templates(lang@) is None,
        },
{
    let table = get_language_templates();
    let mut i: usize = 0;
    while i < table.len()
        invariant
            i <= table@.len(),
            table@.len() == language_table().len(),
            forall|k: int|
                0 <= k < table@.len() ==> (#[trigger] table@[k]).0@ == language_table()[k].0
                    && pairs_view(table@[k].1@) == language_table()[k].1,
            forall|k: int| 0 <= k < i ==> language_table()[k].0 != lang@,
        decreases table@.len() - i,
    {
        if str_eq(table[i].0, lang) {
            let set = &table[i].1;
            let mut out: Vec<(String, String)> = Vec::new();
            let mut j: usize = 0;
            while j < set.len()
                invariant
                    j <= set@.len(),
                    owned_view(out@) =~= pairs_view(set@).take(j as int),
                decreases set@.len() - j,
            {
                let ghost before = out@;
                out.push((String::from_str(set[j].0), String::from_str(set[j].1)));
                proof {
                    assert(owned_view(out@) =~= owned_view(before).push(pairs_view(set@)[j as int]));
                }
                j = j + 1;
            }
            proof {
                assert(pairs_view(set@).take(j as int) =~= pairs_view(set@));
                reveal_strlit("rust");
                reveal_strlit("typescript");
            }
            return Some(out);
        }
        i = i + 1;
    }
    proof {
        reveal_strlit("rust");
        reveal_strlit("typescript");
        assert(language_table()[0].0 != lang@);
        assert(language_table()[1].0 != lang@);
    }
    None
}

} // verus!
