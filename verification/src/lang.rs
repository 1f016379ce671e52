use vstd::prelude::*;
use vstd::string::StringExecFns;
use crate::text::{spec_lower, str_eq_lower};

verus! {

/// The provider's code for a user-facing language alias.
///
/// Matching is case-insensitive; a code that matches no alias passes through
/// unchanged as a best-effort fallback, so the function is total.
pub open spec fn spec_normalize(s: Seq<char>) -> Seq<char> {
    let l = spec_lower(s);
    if l == "zh"@ || l == "zh-cn"@ || l == "chinese"@ {
        "zh"@
    } else if l == "en"@ || l == "english"@ {
        "en"@
    } else if l == "ja"@ || l == "jp"@ || l == "japanese"@ {
        "jp"@
    } else if l == "ko"@ || l == "kr"@ || l == "korean"@ {
        "kor"@
    } else if l == "fr"@ || l == "french"@ {
        "fra"@
    } else if l == "es"@ || l == "spanish"@ {
        "spa"@
    } else if l == "de"@ || l == "german"@ {
        "de"@
    } else if l == "ru"@ || l == "russian"@ {
        "ru"@
    } else if l == "auto"@ {
        "auto"@
    } else {
        s
    }
}

/// Maps a user-facing language alias to the code the provider requires.
pub fn normalize_language_code(code: &str) -> (r: String)
    ensures
        r@ == spec_normalize(code@),
{
    if str_eq_lower(code, "zh") || str_eq_lower(code, "zh-cn") || str_eq_lower(code, "chinese") {
        String::from_str("zh")
    } else if str_eq_lower(code, "en") || str_eq_lower(code, "english") {
        String::from_str("en")
    } else if str_eq_lower(code, "ja") || str_eq_lower(code, "jp") || str_eq_lower(
        code,
        "japanese",
    ) {
        String::from_str("jp")
    } else if str_eq_lower(code, "ko") || str_eq_lower(code, "kr") || str_eq_lower(
        code,
        "korean",
    ) {
        String::from_str("kor")
    } else if str_eq_lower(code, "fr") || str_eq_lower(code, "french") {
        String::from_str("fra")
    } else if str_eq_lower(code, "es") || str_eq_lower(code, "spanish") {
        String::from_str("spa")
    } else if str_eq_lower(code, "de") || str_eq_lower(code, "german") {
        String::from_str("de")
    } else if str_eq_lower(code, "ru") || str_eq_lower(code, "russian") {
        String::from_str("ru")
    } else if str_eq_lower(code, "auto") {
        String::from_str("auto")
    } else {
        code.to_owned()
    }
}

/// Normalizing is idempotent: every code the normalizer emits is already in
/// the provider's form, so a second pass changes nothing.
pub proof fn lemma_normalize_idempotent(s: Seq<char>)
    ensures
        spec_normalize(spec_normalize(s)) == spec_normalize(s),
{
    reveal_strlit("zh");
    reveal_strlit("zh-cn");
    reveal_strlit("chinese");
    reveal_strlit("en");
    reveal_strlit("english");
    reveal_strlit("ja");
    reveal_strlit("jp");
    reveal_strlit("japanese");
    reveal_strlit("ko");
    reveal_strlit("kr");
    reveal_strlit("korean");
    reveal_strlit("fr");
    reveal_strlit("french");
    reveal_strlit("es");
    reveal_strlit("spanish");
    reveal_strlit("de");
    reveal_strlit("german");
    reveal_strlit("ru");
    reveal_strlit("russian");
    reveal_strlit("auto");
    reveal_strlit("kor");
    reveal_strlit("fra");
    reveal_strlit("spa");
    assert(spec_lower("zh"@) =~= "zh"@);
    assert(spec_lower("en"@) =~= "en"@);
    assert(spec_lower("jp"@) =~= "jp"@);
    assert(spec_lower("kor"@) =~= "kor"@);
    assert(spec_lower("fra"@) =~= "fra"@);
    assert(spec_lower("spa"@) =~= "spa"@);
    assert(spec_lower("de"@) =~= "de"@);
    assert(spec_lower("ru"@) =~= "ru"@);
    assert(spec_lower("auto"@) =~= "auto"@);
    assert("de"@[0] == 'd' && "ru"@[0] == 'r' && "zh"@[0] == 'z' && "en"@[0] == 'e'
        && "ja"@[0] == 'j' && "jp"@[0] == 'j' && "ko"@[0] == 'k' && "kr"@[0] == 'k'
        && "fr"@[0] == 'f' && "es"@[0] == 'e' && "en"@[1] == 'n' && "es"@[1] == 's'
        && "ru"@[1] == 'u');
    assert(spec_normalize("zh"@) == "zh"@);
    assert(spec_normalize("en"@) == "en"@);
    assert(spec_normalize("jp"@) == "jp"@);
    assert(spec_normalize("kor"@) == "kor"@);
    assert(spec_normalize("fra"@) == "fra"@);
    assert(spec_normalize("spa"@) == "spa"@);
    assert(spec_normalize("de"@) == "de"@);
    assert(spec_normalize("ru"@) == "ru"@);
    assert(spec_normalize("auto"@) == "auto"@);
}

} // verus!
