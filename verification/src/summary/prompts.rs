//! The built-in language-model prompts of the summary pipeline, in English
//! and Arabic, and their lookup with English fallback.

use vstd::prelude::*;
use crate::text::str_equal;

verus! {

/// Chunk summarizer system prompt (English).
pub const CHUNK_SUMMARIZER_SYSTEM_EN: &'static str = "You are an expert meeting summarizer. Read the part of a meeting transcript you are given and write a concise, factual summary of it. Keep every decision, every action item (with its owner and due date when they are stated), every open question and every important detail. Do not add anything that is not in the transcript. Write the summary in English.";

/// Chunk summarizer system prompt (Arabic).
pub const CHUNK_SUMMARIZER_SYSTEM_AR: &'static str = "أنت خبير في تلخيص الاجتماعات. اقرأ الجزء المقدم إليك من نص الاجتماع، واكتب له ملخصًا موجزًا ودقيقًا. احتفظ بكل قرار، وكل مهمة (مع المسؤول عنها وموعدها إن ذُكرا)، وكل سؤال مفتوح، وكل تفصيل مهم. لا تضف شيئًا غير موجود في النص. اكتب الملخص باللغة العربية الفصحى.";

/// Chunk summarizer user prompt (English).
pub const CHUNK_SUMMARIZER_USER_EN: &'static str = "Summarize the following part of a meeting transcript:\n\n<transcript_chunk>\n{transcript_chunk}\n</transcript_chunk>";

/// Chunk summarizer user prompt (Arabic).
pub const CHUNK_SUMMARIZER_USER_AR: &'static str = "لخّص الجزء التالي من نص الاجتماع، مع الحفاظ على القرارات والمهام:\n\n<transcript_chunk>\n{transcript_chunk}\n</transcript_chunk>";

/// Chunk combiner system prompt (English).
pub const CHUNK_COMBINER_SYSTEM_EN: &'static str = "You are an expert at combining partial meeting summaries. Merge the summaries you are given into one coherent summary in chronological order. Remove repetition, and keep every decision, action item and open question. Write the summary in English.";

/// Chunk combiner system prompt (Arabic).
pub const CHUNK_COMBINER_SYSTEM_AR: &'static str = "أنت خبير في دمج ملخصات الاجتماعات الجزئية. ادمج الملخصات المقدمة إليك في ملخص واحد مترابط بترتيب زمني، واحذف التكرار، واحتفظ بكل قرار ومهمة وسؤال مفتوح. اكتب الملخص باللغة العربية الفصحى.";

/// Chunk combiner user prompt (English).
pub const CHUNK_COMBINER_USER_EN: &'static str = "Combine these partial summaries of one meeting into a single summary:\n\n<summaries>\n{summaries}\n</summaries>";

/// Chunk combiner user prompt (Arabic).
pub const CHUNK_COMBINER_USER_AR: &'static str = "ادمج الملخصات الجزئية التالية لاجتماع واحد في ملخص واحد، دون تكرار:\n\n<summaries>\n{summaries}\n</summaries>";

/// Final report system prompt (English).
pub const FINAL_REPORT_SYSTEM_EN: &'static str = "You are an expert writer of meeting reports. From the meeting summary you are given, write the final report in Markdown. Follow the template structure exactly and fill each section as its instructions say.\n\nSection instructions:\n{section_instructions}\n\nTemplate structure:\n{template_markdown}\n\nWrite only what the meeting supports; leave a section empty rather than invent its content. Write the report in English.";

/// Final report system prompt (Arabic).
pub const FINAL_REPORT_SYSTEM_AR: &'static str = "أنت كاتب خبير لتقارير الاجتماعات. اكتب التقرير النهائي بتنسيق Markdown، انطلاقًا من ملخص الاجتماع المقدم إليك. اتبع بنية القالب بدقة، واملأ كل قسم كما تنص تعليماته.\n\nتعليمات الأقسام:\n{section_instructions}\n\nبنية القالب:\n{template_markdown}\n\nلا تكتب إلا ما يدعمه الاجتماع، واترك القسم فارغًا بدلًا من اختلاق محتواه. اكتب التقرير باللغة العربية الفصحى، مع مراعاة الكتابة من اليمين إلى اليسار.";

/// The built-in prompt for an identifier and a locale: the Arabic text for
/// `"ar"`, the English text for any other locale, nothing for an unknown
/// identifier.
pub open spec fn builtin_prompt(id: Seq<char>, locale: Seq<char>) -> Option<&'static str> {
    let ar = locale == "ar"@;
    if id == "chunk_summarizer_system"@ {
        Some(if ar { CHUNK_SUMMARIZER_SYSTEM_AR } else { CHUNK_SUMMARIZER_SYSTEM_EN })
    } else if id == "chunk_summarizer_user"@ {
        Some(if ar { CHUNK_SUMMARIZER_USER_AR } else { CHUNK_SUMMARIZER_USER_EN })
    } else if id == "chunk_combiner_system"@ {
        Some(if ar { CHUNK_COMBINER_SYSTEM_AR } else { CHUNK_COMBINER_SYSTEM_EN })
    } else if id == "chunk_combiner_user"@ {
        Some(if ar { CHUNK_COMBINER_USER_AR } else { CHUNK_COMBINER_USER_EN })
    } else if id == "final_report_system"@ {
        Some(if ar { FINAL_REPORT_SYSTEM_AR } else { FINAL_REPORT_SYSTEM_EN })
    } else {
        None
    }
}

/// The identifiers of the built-in prompts.
pub open spec fn is_prompt_id(id: Seq<char>) -> bool {
    ||| id == "chunk_summarizer_system"@
    ||| id == "chunk_summarizer_user"@
    ||| id == "chunk_combiner_system"@
    ||| id == "chunk_combiner_user"@
    ||| id == "final_report_system"@
}

/// A built-in prompt by identifier and locale (`"ar"` for Arabic, any
/// other locale for English).
pub fn get_builtin_prompt(id: &str, locale: &str) -> (r: Option<&'static str>)
    ensures
        r == builtin_prompt(id@, locale@),
{
    let ar = str_equal(locale, "ar");
    if str_equal(id, "chunk_summarizer_system") {
        Some(if ar { CHUNK_SUMMARIZER_SYSTEM_AR } else { CHUNK_SUMMARIZER_SYSTEM_EN })
    } else if str_equal(id, "chunk_summarizer_user") {
        Some(if ar { CHUNK_SUMMARIZER_USER_AR } else { CHUNK_SUMMARIZER_USER_EN })
    } else if str_equal(id, "chunk_combiner_system") {
        Some(if ar { CHUNK_COMBINER_SYSTEM_AR } else { CHUNK_COMBINER_SYSTEM_EN })
    } else if str_equal(id, "chunk_combiner_user") {
        Some(if ar { CHUNK_COMBINER_USER_AR } else { CHUNK_COMBINER_USER_EN })
    } else if str_equal(id, "final_report_system") {
        Some(if ar { FINAL_REPORT_SYSTEM_AR } else { FINAL_REPORT_SYSTEM_EN })
    } else {
        None
    }
}


/// The error text for a prompt that cannot be found.
pub open spec fn prompt_not_found(id: Seq<char>, locale: Seq<char>) -> Seq<char> {
    "Prompt '"@ + id + "' not found for locale '"@ + locale + "'"@
}

/// A prompt by identifier and locale: the locale's own text first, the
/// English text next; an unknown identifier is an error that names the
/// identifier and the locale.
pub fn get_prompt(prompt_id: &str, locale: &str) -> (r: Result<&'static str, String>)
    ensures
        r is Ok <==> (builtin_prompt(prompt_id@, locale@) is Some || builtin_prompt(prompt_id@, "en"@) is Some),
        r matches Ok(p) ==> p == match builtin_prompt(prompt_id@, locale@) {
            Some(q) => q,
            None => builtin_prompt(prompt_id@, "en"@)->0,
        },
        r matches Err(m) ==> m@ == prompt_not_found(prompt_id@, locale@),
        r matches Err(m) ==> m@ == "Prompt '"@ + prompt_id@ + "' not found for locale '"@ + locale@ + "'"@,
        r is Ok <==> is_prompt_id(prompt_id@),
        r matches Ok(p) ==> builtin_prompt(prompt_id@, locale@) == Some(p),
{
    proof {
        lemma_prompt_exists_iff_known_id(prompt_id@, locale@);
        lemma_prompt_exists_iff_known_id(prompt_id@, "en"@);
    }
    match get_builtin_prompt(prompt_id, locale) {
        Some(p) => Ok(p),
        None => match get_builtin_prompt(prompt_id, "en") {
            Some(p) => Ok(p),
            None => Err(
                "Prompt '".to_string().concat(prompt_id).concat("' not found for locale '").concat(locale).concat("'"),
            ),
        },
    }
}

/// A prompt exists for an identifier exactly when the identifier is one of
/// the five built-in ones, whatever the locale.
pub proof fn lemma_prompt_exists_iff_known_id(id: Seq<char>, locale: Seq<char>)
    ensures
        builtin_prompt(id, locale) is Some <==> is_prompt_id(id),
{
}

/// Any locale other than Arabic resolves to the English prompt.
pub proof fn lemma_prompt_locale_fallback(id: Seq<char>, locale: Seq<char>)
    requires
        locale != "ar"@,
    ensures
        builtin_prompt(id, locale) == builtin_prompt(id, "en"@),
{
    reveal_strlit("en");
    reveal_strlit("ar");
    assert("en"@[0] != "ar"@[0]);
}


/// Every prompt identifier gives its own Arabic text for the locale `"ar"`
/// and its own English text for every other locale.
pub proof fn lemma_prompt_texts_by_locale(locale: Seq<char>)
    ensures
        builtin_prompt("chunk_summarizer_system"@, locale) == Some(if locale == "ar"@ { CHUNK_SUMMARIZER_SYSTEM_AR } else { CHUNK_SUMMARIZER_SYSTEM_EN }),
        builtin_prompt("chunk_summarizer_user"@, locale) == Some(if locale == "ar"@ { CHUNK_SUMMARIZER_USER_AR } else { CHUNK_SUMMARIZER_USER_EN }),
        builtin_prompt("chunk_combiner_system"@, locale) == Some(if locale == "ar"@ { CHUNK_COMBINER_SYSTEM_AR } else { CHUNK_COMBINER_SYSTEM_EN }),
        builtin_prompt("chunk_combiner_user"@, locale) == Some(if locale == "ar"@ { CHUNK_COMBINER_USER_AR } else { CHUNK_COMBINER_USER_EN }),
        builtin_prompt("final_report_system"@, locale) == Some(if locale == "ar"@ { FINAL_REPORT_SYSTEM_AR } else { FINAL_REPORT_SYSTEM_EN }),
{
    reveal_strlit("chunk_summarizer_system");
    reveal_strlit("chunk_summarizer_user");
    reveal_strlit("chunk_combiner_system");
    reveal_strlit("chunk_combiner_user");
    reveal_strlit("final_report_system");
    assert("chunk_summarizer_system"@[17] != "chunk_summarizer_user"@[17]);
    assert("chunk_summarizer_system"@[6] != "chunk_combiner_system"@[6]);
    assert("chunk_summarizer_system"@[6] != "chunk_combiner_user"@[6]);
    assert("chunk_summarizer_system"@[0] != "final_report_system"@[0]);
    assert("chunk_summarizer_user"@[6] != "chunk_combiner_system"@[6]);
    assert("chunk_summarizer_user"@[6] != "chunk_combiner_user"@[6]);
    assert("chunk_summarizer_user"@[0] != "final_report_system"@[0]);
    assert("chunk_combiner_system"@[15] != "chunk_combiner_user"@[15]);
    assert("chunk_combiner_system"@[0] != "final_report_system"@[0]);
    assert("chunk_combiner_user"@[0] != "final_report_system"@[0]);
}

} // verus!
