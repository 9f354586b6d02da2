//! Meeting templates: the built-in templates in English and Arabic, and the
//! decisions of template resolution: which file names are tried, which
//! source wins, which identifiers are listed, and what a template must hold.

use vstd::prelude::*;
use crate::text::{has_suffix, lex_lt, lemma_lex_total, lemma_lex_transitive, str_equal, str_lt, strip_suffix};

verus! {

/// Built-in template `daily_standup` (English), as JSON.
pub const DAILY_STANDUP_EN: &'static str = "{\"name\": \"Daily Standup\", \"description\": \"A short daily status meeting: what was done, what is planned, and what is in the way.\", \"sections\": [{\"title\": \"Yesterday\", \"instruction\": \"List what each participant reported as completed since the last standup.\", \"format\": \"list\"}, {\"title\": \"Today\", \"instruction\": \"List what each participant plans to work on next.\", \"format\": \"list\"}, {\"title\": \"Blockers\", \"instruction\": \"List the obstacles raised and who will help remove them.\", \"format\": \"list\"}]}";

/// Built-in template `daily_standup` (Arabic), as JSON.
pub const DAILY_STANDUP_AR: &'static str = "{\"name\": \"الاجتماع اليومي\", \"description\": \"اجتماع يومي قصير لمتابعة ما أُنجز، وما هو مخطط له، وما يعيق العمل.\", \"sections\": [{\"title\": \"ما تم إنجازه\", \"instruction\": \"اذكر ما أفاد كل مشارك بإنجازه منذ الاجتماع السابق.\", \"format\": \"list\"}, {\"title\": \"خطة اليوم\", \"instruction\": \"اذكر ما يخطط كل مشارك للعمل عليه.\", \"format\": \"list\"}, {\"title\": \"العوائق\", \"instruction\": \"اذكر العوائق المطروحة، ومن سيساعد على إزالتها.\", \"format\": \"list\"}]}";

/// Built-in template `standard_meeting` (English), as JSON.
pub const STANDARD_MEETING_EN: &'static str = "{\"name\": \"Standard Meeting\", \"description\": \"A general-purpose meeting summary.\", \"sections\": [{\"title\": \"Summary\", \"instruction\": \"Summarize the purpose and the main points of the meeting.\", \"format\": \"paragraph\"}, {\"title\": \"Key Decisions\", \"instruction\": \"List the decisions that were made.\", \"format\": \"list\"}, {\"title\": \"Action Items\", \"instruction\": \"List each action item with its owner and due date when stated.\", \"format\": \"list\"}, {\"title\": \"Open Questions\", \"instruction\": \"List the questions that remain unanswered.\", \"format\": \"list\"}]}";

/// Built-in template `standard_meeting` (Arabic), as JSON.
pub const STANDARD_MEETING_AR: &'static str = "{\"name\": \"اجتماع عام\", \"description\": \"ملخص عام لأي اجتماع.\", \"sections\": [{\"title\": \"الملخص\", \"instruction\": \"لخّص هدف الاجتماع، وأهم النقاط التي نوقشت.\", \"format\": \"paragraph\"}, {\"title\": \"القرارات الرئيسية\", \"instruction\": \"اذكر القرارات التي اتُّخذت.\", \"format\": \"list\"}, {\"title\": \"المهام\", \"instruction\": \"اذكر كل مهمة مع المسؤول عنها، وموعدها إن ذُكر.\", \"format\": \"list\"}, {\"title\": \"أسئلة مفتوحة\", \"instruction\": \"اذكر الأسئلة التي بقيت دون إجابة.\", \"format\": \"list\"}]}";

/// Built-in template `project_sync` (English), as JSON.
pub const PROJECT_SYNC_EN: &'static str = "{\"name\": \"Project Sync\", \"description\": \"A project status meeting: progress, milestones, risks and next steps.\", \"sections\": [{\"title\": \"Project Status\", \"instruction\": \"Summarize the current state of the project.\", \"format\": \"paragraph\"}, {\"title\": \"Milestones\", \"instruction\": \"List milestones reached and upcoming milestones with their dates.\", \"format\": \"list\"}, {\"title\": \"Risks and Issues\", \"instruction\": \"List risks and issues raised and how they will be handled.\", \"format\": \"list\"}, {\"title\": \"Action Items\", \"instruction\": \"List each action item with its owner and due date when stated.\", \"format\": \"list\"}]}";

/// Built-in template `project_sync` (Arabic), as JSON.
pub const PROJECT_SYNC_AR: &'static str = "{\"name\": \"مزامنة المشروع\", \"description\": \"اجتماع لمتابعة حالة المشروع: التقدم، والمراحل، والمخاطر، والخطوات التالية.\", \"sections\": [{\"title\": \"حالة المشروع\", \"instruction\": \"لخّص الوضع الحالي للمشروع.\", \"format\": \"paragraph\"}, {\"title\": \"المراحل\", \"instruction\": \"اذكر المراحل المنجزة، والمراحل القادمة مع مواعيدها.\", \"format\": \"list\"}, {\"title\": \"المخاطر والمشكلات\", \"instruction\": \"اذكر المخاطر والمشكلات المطروحة، وطريقة معالجتها.\", \"format\": \"list\"}, {\"title\": \"المهام\", \"instruction\": \"اذكر كل مهمة مع المسؤول عنها، وموعدها إن ذُكر.\", \"format\": \"list\"}]}";

/// Built-in template `psychatric_session` (English), as JSON.
pub const PSYCHATRIC_SESSION_EN: &'static str = "{\"name\": \"Psychiatric Session\", \"description\": \"Notes of a psychiatric session.\", \"sections\": [{\"title\": \"Presenting Concerns\", \"instruction\": \"Describe the concerns the client brought to the session.\", \"format\": \"paragraph\"}, {\"title\": \"Observations\", \"instruction\": \"Record the clinician's observations during the session.\", \"format\": \"paragraph\"}, {\"title\": \"Discussion\", \"instruction\": \"Summarize the main topics discussed.\", \"format\": \"paragraph\"}, {\"title\": \"Plan\", \"instruction\": \"List the agreed next steps and the follow-up.\", \"format\": \"list\"}]}";

/// Built-in template `psychatric_session` (Arabic), as JSON.
pub const PSYCHATRIC_SESSION_AR: &'static str = "{\"name\": \"جلسة نفسية\", \"description\": \"ملاحظات جلسة علاج نفسي.\", \"sections\": [{\"title\": \"المخاوف المطروحة\", \"instruction\": \"صف المخاوف التي طرحها المراجع في الجلسة.\", \"format\": \"paragraph\"}, {\"title\": \"الملاحظات\", \"instruction\": \"سجّل ملاحظات المعالج، خلال الجلسة.\", \"format\": \"paragraph\"}, {\"title\": \"النقاش\", \"instruction\": \"لخّص الموضوعات الرئيسية التي نوقشت.\", \"format\": \"paragraph\"}, {\"title\": \"الخطة\", \"instruction\": \"اذكر الخطوات التالية المتفق عليها، والمتابعة.\", \"format\": \"list\"}]}";

/// Built-in template `retrospective` (English), as JSON.
pub const RETROSPECTIVE_EN: &'static str = "{\"name\": \"Retrospective\", \"description\": \"A team retrospective: what went well, what to improve, and what to change.\", \"sections\": [{\"title\": \"What Went Well\", \"instruction\": \"List what the team felt went well.\", \"format\": \"list\"}, {\"title\": \"What Could Be Improved\", \"instruction\": \"List what the team felt could be improved.\", \"format\": \"list\"}, {\"title\": \"Action Items\", \"instruction\": \"List the changes the team agreed to make, with owners.\", \"format\": \"list\"}]}";

/// Built-in template `retrospective` (Arabic), as JSON.
pub const RETROSPECTIVE_AR: &'static str = "{\"name\": \"الاجتماع الاسترجاعي\", \"description\": \"مراجعة الفريق لما نجح، وما يمكن تحسينه، وما سيتغير.\", \"sections\": [{\"title\": \"ما نجح\", \"instruction\": \"اذكر ما رأى الفريق أنه نجح.\", \"format\": \"list\"}, {\"title\": \"ما يمكن تحسينه\", \"instruction\": \"اذكر ما رأى الفريق أنه يمكن تحسينه.\", \"format\": \"list\"}, {\"title\": \"المهام\", \"instruction\": \"اذكر التغييرات التي اتفق عليها الفريق، مع المسؤولين عنها.\", \"format\": \"list\"}]}";

/// Built-in template `sales_marketing_client_call` (English), as JSON.
pub const SALES_MARKETING_EN: &'static str = "{\"name\": \"Sales & Marketing Client Call\", \"description\": \"A call with a client or prospect: needs, proposals and next steps.\", \"sections\": [{\"title\": \"Client Overview\", \"instruction\": \"Summarize who the client is and the context of the call.\", \"format\": \"paragraph\"}, {\"title\": \"Needs and Pain Points\", \"instruction\": \"List the needs and problems the client described.\", \"format\": \"list\"}, {\"title\": \"Proposed Solutions\", \"instruction\": \"List the solutions and offers that were discussed.\", \"format\": \"list\"}, {\"title\": \"Next Steps\", \"instruction\": \"List the agreed follow-ups with owners and dates.\", \"format\": \"list\"}]}";

/// Built-in template `sales_marketing_client_call` (Arabic), as JSON.
pub const SALES_MARKETING_AR: &'static str = "{\"name\": \"مكالمة عميل للمبيعات والتسويق\", \"description\": \"مكالمة مع عميل أو عميل محتمل: الاحتياجات، والعروض، والخطوات التالية.\", \"sections\": [{\"title\": \"نبذة عن العميل\", \"instruction\": \"لخّص من هو العميل، وسياق المكالمة.\", \"format\": \"paragraph\"}, {\"title\": \"الاحتياجات والمشكلات\", \"instruction\": \"اذكر الاحتياجات والمشكلات التي وصفها العميل.\", \"format\": \"list\"}, {\"title\": \"الحلول المقترحة\", \"instruction\": \"اذكر الحلول والعروض التي نوقشت.\", \"format\": \"list\"}, {\"title\": \"الخطوات التالية\", \"instruction\": \"اذكر المتابعات المتفق عليها، مع المسؤولين والمواعيد.\", \"format\": \"list\"}]}";

/// The built-in template for an identifier and a locale: the Arabic JSON
/// for `"ar"`, the English JSON for any other locale, nothing for an
/// unknown identifier.
pub open spec fn builtin_template(id: Seq<char>, locale: Seq<char>) -> Option<&'static str> {
    let ar = locale == "ar"@;
    if id == "daily_standup"@ {
        Some(if ar { DAILY_STANDUP_AR } else { DAILY_STANDUP_EN })
    } else if id == "standard_meeting"@ {
        Some(if ar { STANDARD_MEETING_AR } else { STANDARD_MEETING_EN })
    } else if id == "project_sync"@ {
        Some(if ar { PROJECT_SYNC_AR } else { PROJECT_SYNC_EN })
    } else if id == "psychatric_session"@ {
        Some(if ar { PSYCHATRIC_SESSION_AR } else { PSYCHATRIC_SESSION_EN })
    } else if id == "retrospective"@ {
        Some(if ar { RETROSPECTIVE_AR } else { RETROSPECTIVE_EN })
    } else if id == "sales_marketing_client_call"@ {
        Some(if ar { SALES_MARKETING_AR } else { SALES_MARKETING_EN })
    } else {
        None
    }
}

/// The identifiers of the built-in templates, in registry order.
pub open spec fn builtin_template_ids() -> Seq<&'static str> {
    seq![
        "daily_standup",
        "standard_meeting",
        "project_sync",
        "psychatric_session",
        "retrospective",
        "sales_marketing_client_call",
    ]
}

/// Every built-in template, as (identifier, locale, JSON): each identifier
/// in English then Arabic.
pub fn get_builtin_templates() -> (r: Vec<(&'static str, &'static str, &'static str)>)
    ensures
        r@ == seq![
            ("daily_standup", "en", DAILY_STANDUP_EN),
            ("daily_standup", "ar", DAILY_STANDUP_AR),
            ("standard_meeting", "en", STANDARD_MEETING_EN),
            ("standard_meeting", "ar", STANDARD_MEETING_AR),
            ("project_sync", "en", PROJECT_SYNC_EN),
            ("project_sync", "ar", PROJECT_SYNC_AR),
            ("psychatric_session", "en", PSYCHATRIC_SESSION_EN),
            ("psychatric_session", "ar", PSYCHATRIC_SESSION_AR),
            ("retrospective", "en", RETROSPECTIVE_EN),
            ("retrospective", "ar", RETROSPECTIVE_AR),
            ("sales_marketing_client_call", "en", SALES_MARKETING_EN),
            ("sales_marketing_client_call", "ar", SALES_MARKETING_AR),
        ],
{
    vec![
        ("daily_standup", "en", DAILY_STANDUP_EN),
        ("daily_standup", "ar", DAILY_STANDUP_AR),
        ("standard_meeting", "en", STANDARD_MEETING_EN),
        ("standard_meeting", "ar", STANDARD_MEETING_AR),
        ("project_sync", "en", PROJECT_SYNC_EN),
        ("project_sync", "ar", PROJECT_SYNC_AR),
        ("psychatric_session", "en", PSYCHATRIC_SESSION_EN),
        ("psychatric_session", "ar", PSYCHATRIC_SESSION_AR),
        ("retrospective", "en", RETROSPECTIVE_EN),
        ("retrospective", "ar", RETROSPECTIVE_AR),
        ("sales_marketing_client_call", "en", SALES_MARKETING_EN),
        ("sales_marketing_client_call", "ar", SALES_MARKETING_AR),
    ]
}

/// A built-in template by identifier and locale; unknown locales fall back
/// to English.
pub fn get_builtin_template(id: &str, locale: &str) -> (r: Option<&'static str>)
    ensures
        r == builtin_template(id@, locale@),
{
    let ar = str_equal(locale, "ar");
    if str_equal(id, "daily_standup") {
        Some(if ar { DAILY_STANDUP_AR } else { DAILY_STANDUP_EN })
    } else if str_equal(id, "standard_meeting") {
        Some(if ar { STANDARD_MEETING_AR } else { STANDARD_MEETING_EN })
    } else if str_equal(id, "project_sync") {
        Some(if ar { PROJECT_SYNC_AR } else { PROJECT_SYNC_EN })
    } else if str_equal(id, "psychatric_session") {
        Some(if ar { PSYCHATRIC_SESSION_AR } else { PSYCHATRIC_SESSION_EN })
    } else if str_equal(id, "retrospective") {
        Some(if ar { RETROSPECTIVE_AR } else { RETROSPECTIVE_EN })
    } else if str_equal(id, "sales_marketing_client_call") {
        Some(if ar { SALES_MARKETING_AR } else { SALES_MARKETING_EN })
    } else {
        None
    }
}

/// The identifiers of the built-in templates, each once.
pub fn list_builtin_template_ids() -> (r: Vec<&'static str>)
    ensures
        r@ == builtin_template_ids(),
{
    vec![
        "daily_standup",
        "standard_meeting",
        "project_sync",
        "psychatric_session",
        "retrospective",
        "sales_marketing_client_call",
    ]
}


/// The two file names tried for a template in a directory, in order: the
/// locale-specific `{id}.{locale}.json`, then the base `{id}.json`.
pub fn template_file_candidates(template_id: &str, locale: &str) -> (r: Vec<String>)
    ensures
        r@.len() == 2,
        r@[0]@ == template_id@ + "."@ + locale@ + ".json"@,
        r@[1]@ == template_id@ + ".json"@,
{
    let mut r: Vec<String> = Vec::new();
    r.push(template_id.to_string().concat(".").concat(locale).concat(".json"));
    r.push(template_id.to_string().concat(".json"));
    r
}

/// What one template directory holds for a template: the texts of its
/// locale-specific file and of its base file, where they could be read.
#[derive(Debug, Clone)]
pub struct TemplateFiles {
    pub locale_specific: Option<String>,
    pub base: Option<String>,
}

/// The character view of an optional text.
pub open spec fn opt_text(o: Option<String>) -> Option<Seq<char>> {
    match o {
        Some(s) => Some(s@),
        None => None,
    }
}

/// The text a directory supplies: its locale-specific file when there is
/// one, else its base file.
pub open spec fn picked(files: TemplateFiles) -> Option<Seq<char>> {
    match files.locale_specific {
        Some(c) => Some(c@),
        None => opt_text(files.base),
    }
}

/// The template text in force: the user's custom directory first, the
/// bundled resources next, the built-in templates last.
pub open spec fn resolved_template(
    template_id: Seq<char>,
    locale: Seq<char>,
    custom: TemplateFiles,
    bundled: TemplateFiles,
) -> Option<Seq<char>> {
    match picked(custom) {
        Some(c) => Some(c),
        None => match picked(bundled) {
            Some(b) => Some(b),
            None => match builtin_template(template_id, locale) {
                Some(t) => Some(t@),
                None => None,
            },
        },
    }
}

impl TemplateFiles {
    /// The text this directory supplies: the locale-specific file when
    /// there is one, else the base file.
    pub fn pick(self) -> (r: Option<String>)
        ensures
            opt_text(r) == picked(self),
    {
        match self.locale_specific {
            Some(c) => Some(c),
            None => self.base,
        }
    }
}

/// The JSON text of a template, chosen by the fallback chain: the custom
/// directory (locale-specific file, then base file), the bundled directory
/// (likewise), then the built-in templates (the locale's, English for an
/// unknown locale). `None` when no source has the template.
pub fn get_template(template_id: &str, locale: &str, custom: TemplateFiles, bundled: TemplateFiles) -> (r: Option<String>)
    ensures
        opt_text(r) == resolved_template(template_id@, locale@, custom, bundled),
{
    match custom.pick() {
        Some(c) => Some(c),
        None => match bundled.pick() {
            Some(b) => Some(b),
            None => match get_builtin_template(template_id, locale) {
                Some(t) => Some(t.to_string()),
                None => None,
            },
        },
    }
}

/// The items of `list` with `sep` between each two.
pub open spec fn joined(list: Seq<Seq<char>>, sep: Seq<char>) -> Seq<char>
    decreases list.len(),
{
    if list.len() == 0 {
        Seq::empty()
    } else if list.len() == 1 {
        list[0]
    } else {
        joined(list.drop_last(), sep) + sep + list.last()
    }
}

/// The character views of a list of strings.
pub open spec fn texts(v: Seq<String>) -> Seq<Seq<char>> {
    v.map_values(|s: String| s@)
}

/// The error text for a template found nowhere, with the identifiers that
/// are available.
pub open spec fn template_not_found_text(template_id: Seq<char>, available: Seq<Seq<char>>) -> Seq<char> {
    "Template '"@ + template_id + "' not found. Available templates: "@ + joined(available, ", "@)
}

/// The error text for a template found nowhere: "Template '<id>' not found.
/// Available templates: <ids separated by commas>".
pub fn template_not_found(template_id: &str, available: &Vec<String>) -> (m: String)
    ensures
        m@ == template_not_found_text(template_id@, texts(available@)),
        m@ == "Template '"@ + template_id@ + "' not found. Available templates: "@ + joined(texts(available@), ", "@),
{
    let mut list = String::new();
    let n = available.len();
    let mut i: usize = 0;
    while i < n
        invariant
            n == available@.len(),
            i <= n,
            list@ == joined(texts(available@).take(i as int), ", "@),
        decreases n - i,
    {
        let ghost before = texts(available@).take(i as int);
        if i > 0 {
            list.append(", ");
        }
        list.append(available[i].as_str());
        proof {
            let after = texts(available@).take(i + 1);
            assert(after.drop_last() =~= before);
            if i == 0 {
                assert(before =~= Seq::<Seq<char>>::empty());
                assert(list@ =~= after[0]);
            }
        }
        i = i + 1;
    }
    assert(texts(available@).take(n as int) =~= texts(available@));
    "Template '".to_string().concat(template_id).concat("' not found. Available templates: ").concat(list.as_str())
}


/// `s` without its last `n` characters.
pub open spec fn drop_end(s: Seq<char>, n: nat) -> Seq<char> {
    s.take(s.len() - n)
}

/// The template identifier a file name stands for: a name ending in
/// `.json`, without that extension and without a `.ar` or `.en` locale
/// suffix before it. Other names stand for no template.
pub open spec fn base_template_id(filename: Seq<char>) -> Option<Seq<char>> {
    if has_suffix(filename, ".json"@) {
        let name = drop_end(filename, ".json"@.len());
        if has_suffix(name, ".ar"@) {
            Some(drop_end(name, ".ar"@.len()))
        } else if has_suffix(name, ".en"@) {
            Some(drop_end(name, ".en"@.len()))
        } else {
            Some(name)
        }
    } else {
        None
    }
}

/// The template identifier a file name stands for, e.g.
/// `daily_standup.ar.json` and `daily_standup.json` both give
/// `daily_standup`; a name not ending in `.json` gives nothing.
pub fn extract_base_template_id(filename: &str) -> (r: Option<String>)
    ensures
        opt_text(r) == base_template_id(filename@),
{
    match strip_suffix(filename, ".json") {
        None => None,
        Some(name) => match strip_suffix(name, ".ar") {
            Some(base) => Some(base.to_string()),
            None => match strip_suffix(name, ".en") {
                Some(base) => Some(base.to_string()),
                None => Some(name.to_string()),
            },
        },
    }
}


/// Strictly increasing in the order of Rust strings: sorted, and no item
/// twice.
pub open spec fn strictly_sorted(s: Seq<Seq<char>>) -> bool {
    forall|i: int, j: int| 0 <= i < j < s.len() ==> lex_lt(s[i], s[j])
}

/// `id` is the template identifier of one of the file names.
pub open spec fn names_template(files: Seq<String>, id: Seq<char>) -> bool {
    exists|k: int| 0 <= k < files.len() && base_template_id(files[k]@) == Some(id)
}

/// `id` is a built-in template identifier.
pub open spec fn is_builtin_template_id(id: Seq<char>) -> bool {
    exists|k: int| 0 <= k < builtin_template_ids().len() && builtin_template_ids()[k]@ == id
}

/// The template identifiers on offer: the built-in ones and those of the
/// `.json` files of the bundled and the custom directories.
pub open spec fn offered_template_id(bundled_files: Seq<String>, custom_files: Seq<String>, id: Seq<char>) -> bool {
    ||| is_builtin_template_id(id)
    ||| names_template(bundled_files, id)
    ||| names_template(custom_files, id)
}

/// Puts `id` into the strictly sorted `ids` at its place, unless it is
/// already there.
fn insert_sorted(ids: &mut Vec<String>, id: String)
    requires
        strictly_sorted(texts(old(ids)@)),
    ensures
        strictly_sorted(texts(final(ids)@)),
        forall|x: Seq<char>| #![trigger texts(final(ids)@).contains(x)] texts(final(ids)@).contains(x) <==> (texts(old(ids)@).contains(x) || x == id@),
{
    let ghost o = texts(ids@);
    let n = ids.len();
    let mut p: usize = 0;
    while p < n && str_lt(ids[p].as_str(), id.as_str())
        invariant
            n == ids@.len(),
            o == texts(ids@),
            p <= n,
            forall|k: int| 0 <= k < p ==> lex_lt(o[k], id@),
        decreases n - p,
    {
        p = p + 1;
    }
    if p < n && str_equal(ids[p].as_str(), id.as_str()) {
        assert(o[p as int] == id@);
        return;
    }
    let ghost idv = id@;
    ids.insert(p, id);
    let ghost t = texts(ids@);
    assert(t =~= o.insert(p as int, idv));
    if p < n {
        proof {
            lemma_lex_total(o[p as int], idv);
        }
        assert(lex_lt(idv, o[p as int]));
    }
    assert forall|i: int, j: int| 0 <= i < j < t.len() implies lex_lt(t[i], t[j]) by {
        if j < p {
        } else if j == p {
        } else if i < p {
            assert(t[j] == o[j - 1]);
        } else if i == p {
            assert(t[j] == o[j - 1]);
            if j - 1 > p {
                lemma_lex_transitive(idv, o[p as int], o[j - 1]);
            }
        } else {
            assert(t[i] == o[i - 1] && t[j] == o[j - 1]);
        }
    }
    assert forall|x: Seq<char>| t.contains(x) <==> (o.contains(x) || x == idv) by {
        if t.contains(x) {
            let k = choose|k: int| 0 <= k < t.len() && t[k] == x;
            if k < p {
                assert(o[k] == x);
            } else if k > p {
                assert(o[k - 1] == x);
            }
        }
        if o.contains(x) {
            let k = choose|k: int| 0 <= k < o.len() && o[k] == x;
            if k < p {
                assert(t[k] == x);
            } else {
                assert(t[k + 1] == x);
            }
        }
        if x == idv {
            assert(t[p as int] == x);
        }
    }
}


/// Adds the template identifiers of the `.json` file names among `files`.
fn insert_file_ids(ids: &mut Vec<String>, files: &Vec<String>)
    requires
        strictly_sorted(texts(old(ids)@)),
    ensures
        strictly_sorted(texts(final(ids)@)),
        forall|x: Seq<char>| #![trigger texts(final(ids)@).contains(x)] texts(final(ids)@).contains(x) <==> (texts(old(ids)@).contains(x) || names_template(files@, x)),
{
    let ghost start = texts(ids@);
    let n = files.len();
    let mut i: usize = 0;
    while i < n
        invariant
            n == files@.len(),
            i <= n,
            strictly_sorted(texts(ids@)),
            forall|x: Seq<char>| #![trigger texts(ids@).contains(x)] texts(ids@).contains(x) <==> (start.contains(x) || names_template(files@.take(i as int), x)),
        decreases n - i,
    {
        let ghost before = texts(ids@);
        let found = extract_base_template_id(files[i].as_str());
        let ghost fi = files@[i as int];
        let ghost fv = opt_text(found);
        match found {
            Some(id) => {
                insert_sorted(ids, id);
            },
            None => {},
        }
        assert(fv == base_template_id(fi@));
        assert(forall|x: Seq<char>| texts(ids@).contains(x) <==> (before.contains(x) || fv == Some(x)));
        assert forall|x: Seq<char>| names_template(files@.take(i + 1), x)
            <==> (names_template(files@.take(i as int), x) || base_template_id(fi@) == Some(x)) by {
            if names_template(files@.take(i + 1), x) {
                let k = choose|k: int| #![trigger files@.take(i + 1)[k]] 0 <= k < files@.take(i + 1).len() && base_template_id(files@.take(i + 1)[k]@) == Some(x);
                if k < i {
                    assert(files@.take(i as int)[k] == files@.take(i + 1)[k]);
                }
            }
            if names_template(files@.take(i as int), x) {
                let k = choose|k: int| #![trigger files@.take(i as int)[k]] 0 <= k < files@.take(i as int).len() && base_template_id(files@.take(i as int)[k]@) == Some(x);
                assert(files@.take(i as int)[k] == files@.take(i + 1)[k]);
            }
            if base_template_id(fi@) == Some(x) {
                assert(files@.take(i + 1)[i as int] == fi);
            }
        }
        assert forall|x: Seq<char>| texts(ids@).contains(x) <==> (start.contains(x) || names_template(files@.take(i + 1), x)) by {
            assert(texts(ids@).contains(x) <==> (before.contains(x) || fv == Some(x)));
            assert(before.contains(x) <==> (start.contains(x) || names_template(files@.take(i as int), x)));
        }
        i = i + 1;
    }
    assert(files@.take(n as int) =~= files@);
}

/// Every template identifier on offer, each once, in the order of Rust
/// strings: the built-in identifiers and those that the `.json` file names
/// of the bundled and custom template directories stand for (file names
/// with a `.ar` or `.en` locale suffix count once, under their base
/// identifier).
pub fn list_template_ids(bundled_files: &Vec<String>, custom_files: &Vec<String>) -> (r: Vec<String>)
    ensures
        strictly_sorted(texts(r@)),
        forall|x: Seq<char>| texts(r@).contains(x) <==> offered_template_id(bundled_files@, custom_files@, x),
{
    let mut ids: Vec<String> = Vec::new();
    let builtin = list_builtin_template_ids();
    let nb = builtin.len();
    let mut i: usize = 0;
    while i < nb
        invariant
            builtin@ == builtin_template_ids(),
            nb == builtin@.len(),
            i <= nb,
            strictly_sorted(texts(ids@)),
            forall|x: Seq<char>| texts(ids@).contains(x) <==> (exists|k: int| 0 <= k < i && builtin@[k]@ == x),
        decreases nb - i,
    {
        let ghost before = texts(ids@);
        let ghost b = builtin@[i as int];
        insert_sorted(&mut ids, builtin[i].to_string());
        assert forall|x: Seq<char>| texts(ids@).contains(x) <==> (exists|k: int| 0 <= k < i + 1 && builtin@[k]@ == x) by {
            if x == b@ {
                assert(builtin@[i as int]@ == x);
            }
            if exists|k: int| 0 <= k < i + 1 && builtin@[k]@ == x {
                let k = choose|k: int| 0 <= k < i + 1 && builtin@[k]@ == x;
                if k < i {
                    assert(exists|k: int| 0 <= k < i && builtin@[k]@ == x);
                }
            }
        }
        i = i + 1;
    }
    assert forall|x: Seq<char>| texts(ids@).contains(x) <==> is_builtin_template_id(x) by {
        if exists|k: int| 0 <= k < nb && builtin@[k]@ == x {
            let k = choose|k: int| 0 <= k < nb && builtin@[k]@ == x;
            assert(builtin_template_ids()[k]@ == x);
        }
        if is_builtin_template_id(x) {
            let k = choose|k: int| 0 <= k < builtin_template_ids().len() && builtin_template_ids()[k]@ == x;
            assert(builtin@[k]@ == x);
        }
    }
    let ghost after_builtin = texts(ids@);
    insert_file_ids(&mut ids, bundled_files);
    let ghost after_bundled = texts(ids@);
    insert_file_ids(&mut ids, custom_files);
    assert forall|x: Seq<char>| texts(ids@).contains(x) <==> offered_template_id(bundled_files@, custom_files@, x) by {
        assert(texts(ids@).contains(x) <==> (after_bundled.contains(x) || names_template(custom_files@, x)));
        assert(after_bundled.contains(x) <==> (after_builtin.contains(x) || names_template(bundled_files@, x)));
        assert(after_builtin.contains(x) <==> is_builtin_template_id(x));
    }
    ids
}


/// One section of a meeting template.
#[derive(Debug, Clone)]
pub struct TemplateSection {
    pub title: String,
    /// What the report writer is told to put in the section.
    pub instruction: String,
    /// How the section is laid out, e.g. `paragraph` or `list`.
    pub format: String,
}

/// A meeting template: a named list of sections.
#[derive(Debug, Clone)]
pub struct Template {
    pub name: String,
    pub description: String,
    pub sections: Vec<TemplateSection>,
}

/// The section has an empty title.
pub open spec fn untitled(section: TemplateSection) -> bool {
    section.title@.len() == 0
}

/// The first thing wrong with a template, if any: an empty name, no
/// sections, or a section without a title.
pub open spec fn template_problem(t: Template) -> Option<Seq<char>> {
    if t.name@.len() == 0 {
        Some("Template name cannot be empty"@)
    } else if t.sections@.len() == 0 {
        Some("Template must have at least one section"@)
    } else if exists|i: int| 0 <= i < t.sections@.len() && untitled(#[trigger] t.sections@[i]) {
        Some("Section title cannot be empty"@)
    } else {
        None
    }
}

impl Template {
    /// Checks that the template has a name, at least one section, and a
    /// title for every section.
    pub fn validate(&self) -> (r: Result<(), String>)
        ensures
            r is Ok <==> template_problem(*self) is None,
            r matches Err(m) ==> template_problem(*self) == Some(m@),
    {
        if self.name.as_str().is_empty() {
            return Err("Template name cannot be empty".to_string());
        }
        if self.sections.len() == 0 {
            return Err("Template must have at least one section".to_string());
        }
        let n = self.sections.len();
        let mut i: usize = 0;
        while i < n
            invariant
                n == self.sections@.len(),
                n > 0,
                self.name@.len() != 0,
                i <= n,
                forall|k: int| 0 <= k < i ==> !untitled(#[trigger] self.sections@[k]),
            decreases n - i,
        {
            if self.sections[i].title.as_str().is_empty() {
                assert(untitled(self.sections@[i as int]));
                return Err("Section title cannot be empty".to_string());
            }
            i = i + 1;
        }
        Ok(())
    }
}

/// The (identifier, name, description) rows of the templates that loaded,
/// in the order given; templates that failed to load are left out.
pub open spec fn listed_templates(entries: Seq<(String, Result<Template, String>)>) -> Seq<(Seq<char>, Seq<char>, Seq<char>)>
    decreases entries.len(),
{
    if entries.len() == 0 {
        Seq::empty()
    } else {
        let rest = listed_templates(entries.drop_last());
        match entries.last().1 {
            Ok(t) => rest.push((entries.last().0@, t.name@, t.description@)),
            Err(_) => rest,
        }
    }
}

/// The character views of (identifier, name, description) rows.
pub open spec fn row_texts(rows: Seq<(String, String, String)>) -> Seq<(Seq<char>, Seq<char>, Seq<char>)> {
    rows.map_values(|r: (String, String, String)| (r.0@, r.1@, r.2@))
}

/// Lists each loaded template as (identifier, name, description), keeping
/// the order of `entries` and skipping those that failed to load.
pub fn list_templates(entries: &Vec<(String, Result<Template, String>)>) -> (r: Vec<(String, String, String)>)
    ensures
        row_texts(r@) == listed_templates(entries@),
{
    let mut rows: Vec<(String, String, String)> = Vec::new();
    let n = entries.len();
    let mut i: usize = 0;
    while i < n
        invariant
            n == entries@.len(),
            i <= n,
            row_texts(rows@) == listed_templates(entries@.take(i as int)),
        decreases n - i,
    {
        let ghost before = rows@;
        assert(entries@.take(i + 1).drop_last() =~= entries@.take(i as int));
        let (id, loaded) = &entries[i];
        match loaded {
            Ok(t) => {
                rows.push((id.clone(), t.name.clone(), t.description.clone()));
                assert(row_texts(rows@) =~= row_texts(before).push((id@, t.name@, t.description@)));
            },
            Err(_) => {},
        }
        i = i + 1;
    }
    assert(entries@.take(n as int) =~= entries@);
    rows
}


/// Any locale other than Arabic resolves to the English built-in template.
pub proof fn lemma_template_locale_fallback(template_id: Seq<char>, locale: Seq<char>)
    requires
        locale != "ar"@,
    ensures
        builtin_template(template_id, locale) == builtin_template(template_id, "en"@),
{
    reveal_strlit("en");
    reveal_strlit("ar");
    assert("en"@[0] != "ar"@[0]);
}

/// A template is found nowhere exactly when neither directory has a file
/// for it and it is not built in; every built-in identifier has a template
/// in every locale.
pub proof fn lemma_template_missing_iff_unknown(
    template_id: Seq<char>,
    locale: Seq<char>,
    custom: TemplateFiles,
    bundled: TemplateFiles,
)
    ensures
        resolved_template(template_id, locale, custom, bundled) is None <==> (
            picked(custom) is None && picked(bundled) is None && !is_builtin_template_id(template_id)),
{
    reveal_strlit("daily_standup");
    reveal_strlit("standard_meeting");
    reveal_strlit("project_sync");
    reveal_strlit("psychatric_session");
    reveal_strlit("retrospective");
    reveal_strlit("sales_marketing_client_call");
    if is_builtin_template_id(template_id) {
        let k = choose|k: int| 0 <= k < builtin_template_ids().len() && builtin_template_ids()[k]@ == template_id;
        assert(0 <= k < 6);
    }
    if builtin_template(template_id, locale) is Some {
        if template_id == "daily_standup"@ {
            assert(builtin_template_ids()[0]@ == template_id);
        } else if template_id == "standard_meeting"@ {
            assert(builtin_template_ids()[1]@ == template_id);
        } else if template_id == "project_sync"@ {
            assert(builtin_template_ids()[2]@ == template_id);
        } else if template_id == "psychatric_session"@ {
            assert(builtin_template_ids()[3]@ == template_id);
        } else if template_id == "retrospective"@ {
            assert(builtin_template_ids()[4]@ == template_id);
        } else {
            assert(builtin_template_ids()[5]@ == template_id);
        }
    }
}

/// The registry of built-in templates and the lookup agree: each
/// (identifier, locale, JSON) entry is what the lookup gives for that
/// identifier and locale.
pub proof fn lemma_registry_matches_lookup(entries: Seq<(&'static str, &'static str, &'static str)>, k: int)
    requires
        entries == seq![
            ("daily_standup", "en", DAILY_STANDUP_EN),
            ("daily_standup", "ar", DAILY_STANDUP_AR),
            ("standard_meeting", "en", STANDARD_MEETING_EN),
            ("standard_meeting", "ar", STANDARD_MEETING_AR),
            ("project_sync", "en", PROJECT_SYNC_EN),
            ("project_sync", "ar", PROJECT_SYNC_AR),
            ("psychatric_session", "en", PSYCHATRIC_SESSION_EN),
            ("psychatric_session", "ar", PSYCHATRIC_SESSION_AR),
            ("retrospective", "en", RETROSPECTIVE_EN),
            ("retrospective", "ar", RETROSPECTIVE_AR),
            ("sales_marketing_client_call", "en", SALES_MARKETING_EN),
            ("sales_marketing_client_call", "ar", SALES_MARKETING_AR),
        ],
        0 <= k < entries.len(),
    ensures
        builtin_template(entries[k].0@, entries[k].1@) == Some(entries[k].2),
{
    reveal_strlit("en");
    reveal_strlit("ar");
    assert("en"@[0] != "ar"@[0]);
    reveal_strlit("daily_standup");
    reveal_strlit("standard_meeting");
    reveal_strlit("project_sync");
    reveal_strlit("psychatric_session");
    reveal_strlit("retrospective");
    reveal_strlit("sales_marketing_client_call");
    assert("daily_standup"@[0] != "standard_meeting"@[0]);
    assert("daily_standup"@[0] != "project_sync"@[0]);
    assert("daily_standup"@[0] != "psychatric_session"@[0]);
    assert("daily_standup"@[0] != "retrospective"@[0]);
    assert("daily_standup"@[0] != "sales_marketing_client_call"@[0]);
    assert("standard_meeting"@[0] != "project_sync"@[0]);
    assert("standard_meeting"@[0] != "psychatric_session"@[0]);
    assert("standard_meeting"@[0] != "retrospective"@[0]);
    assert("standard_meeting"@[1] != "sales_marketing_client_call"@[1]);
    assert("project_sync"@[1] != "psychatric_session"@[1]);
    assert("project_sync"@[0] != "retrospective"@[0]);
    assert("project_sync"@[0] != "sales_marketing_client_call"@[0]);
    assert("psychatric_session"@[0] != "retrospective"@[0]);
    assert("psychatric_session"@[0] != "sales_marketing_client_call"@[0]);
    assert("retrospective"@[0] != "sales_marketing_client_call"@[0]);
}


/// A file name that does not end in `.json` stands for no template.
pub proof fn lemma_non_json_names_no_template(filename: Seq<char>)
    ensures
        !has_suffix(filename, ".json"@) ==> base_template_id(filename) is None,
        has_suffix(filename, ".json"@) ==> base_template_id(filename) is Some,
{
}

/// `b` ends `a + b`, and removing it gives back `a`.
proof fn lemma_suffix_of_concat(a: Seq<char>, b: Seq<char>)
    ensures
        has_suffix(a + b, b),
        drop_end(a + b, b.len()) == a,
{
    assert((a + b).skip((a + b).len() - b.len()) =~= b);
    assert(drop_end(a + b, b.len()) =~= a);
}

/// The files a template is looked up under are listed under its
/// identifier again: `{id}.ar.json` and `{id}.en.json` always, and
/// `{id}.json` when the identifier does not itself end in `.ar` or `.en`.
pub proof fn lemma_candidate_files_name_their_template(template_id: Seq<char>, locale: Seq<char>)
    requires
        locale == "ar"@ || locale == "en"@,
    ensures
        base_template_id(template_id + "."@ + locale + ".json"@) == Some(template_id),
        !has_suffix(template_id, ".ar"@) && !has_suffix(template_id, ".en"@)
            ==> base_template_id(template_id + ".json"@) == Some(template_id),
{
    reveal_strlit(".");
    reveal_strlit("ar");
    reveal_strlit("en");
    reveal_strlit(".ar");
    reveal_strlit(".en");
    let name = template_id + "."@ + locale;
    lemma_suffix_of_concat(name, ".json"@);
    lemma_suffix_of_concat(template_id, ".json"@);
    if locale == "ar"@ {
        assert(name =~= template_id + ".ar"@);
        lemma_suffix_of_concat(template_id, ".ar"@);
    } else {
        assert(name =~= template_id + ".en"@);
        lemma_suffix_of_concat(template_id, ".en"@);
        assert(!has_suffix(name, ".ar"@)) by {
            assert(name[name.len() - 1] == 'n');
            if has_suffix(name, ".ar"@) {
                assert(name.skip(name.len() - 3)[2] == name[name.len() - 1]);
            }
        }
    }
}


/// Every built-in template identifier gives its own Arabic JSON for the
/// locale `"ar"` and its own English JSON for every other locale.
pub proof fn lemma_template_texts_by_locale(locale: Seq<char>)
    ensures
        builtin_template("daily_standup"@, locale) == Some(if locale == "ar"@ { DAILY_STANDUP_AR } else { DAILY_STANDUP_EN }),
        builtin_template("standard_meeting"@, locale) == Some(if locale == "ar"@ { STANDARD_MEETING_AR } else { STANDARD_MEETING_EN }),
        builtin_template("project_sync"@, locale) == Some(if locale == "ar"@ { PROJECT_SYNC_AR } else { PROJECT_SYNC_EN }),
        builtin_template("psychatric_session"@, locale) == Some(if locale == "ar"@ { PSYCHATRIC_SESSION_AR } else { PSYCHATRIC_SESSION_EN }),
        builtin_template("retrospective"@, locale) == Some(if locale == "ar"@ { RETROSPECTIVE_AR } else { RETROSPECTIVE_EN }),
        builtin_template("sales_marketing_client_call"@, locale) == Some(if locale == "ar"@ { SALES_MARKETING_AR } else { SALES_MARKETING_EN }),
{
    reveal_strlit("daily_standup");
    reveal_strlit("standard_meeting");
    reveal_strlit("project_sync");
    reveal_strlit("psychatric_session");
    reveal_strlit("retrospective");
    reveal_strlit("sales_marketing_client_call");
    assert("daily_standup"@[0] != "standard_meeting"@[0]);
    assert("daily_standup"@[0] != "project_sync"@[0]);
    assert("daily_standup"@[0] != "psychatric_session"@[0]);
    assert("daily_standup"@[0] != "retrospective"@[0]);
    assert("daily_standup"@[0] != "sales_marketing_client_call"@[0]);
    assert("standard_meeting"@[0] != "project_sync"@[0]);
    assert("standard_meeting"@[0] != "psychatric_session"@[0]);
    assert("standard_meeting"@[0] != "retrospective"@[0]);
    assert("standard_meeting"@[1] != "sales_marketing_client_call"@[1]);
    assert("project_sync"@[1] != "psychatric_session"@[1]);
    assert("project_sync"@[0] != "retrospective"@[0]);
    assert("project_sync"@[0] != "sales_marketing_client_call"@[0]);
    assert("psychatric_session"@[0] != "retrospective"@[0]);
    assert("psychatric_session"@[0] != "sales_marketing_client_call"@[0]);
    assert("retrospective"@[0] != "sales_marketing_client_call"@[0]);
}

/// The order of the template sources, stated over the files themselves: a
/// directory's locale-specific file comes before its base file, the custom
/// directory before the bundled one, and the built-in template last.
pub proof fn lemma_template_source_order(
    template_id: Seq<char>,
    locale: Seq<char>,
    custom: TemplateFiles,
    bundled: TemplateFiles,
)
    ensures
        custom.locale_specific is Some
            ==> resolved_template(template_id, locale, custom, bundled) == Some(custom.locale_specific->0@),
        custom.locale_specific is None && custom.base is Some
            ==> resolved_template(template_id, locale, custom, bundled) == Some(custom.base->0@),
        custom.locale_specific is None && custom.base is None && bundled.locale_specific is Some
            ==> resolved_template(template_id, locale, custom, bundled) == Some(bundled.locale_specific->0@),
        custom.locale_specific is None && custom.base is None && bundled.locale_specific is None
            && bundled.base is Some
            ==> resolved_template(template_id, locale, custom, bundled) == Some(bundled.base->0@),
        custom.locale_specific is None && custom.base is None && bundled.locale_specific is None
            && bundled.base is None
            ==> resolved_template(template_id, locale, custom, bundled) == match builtin_template(template_id, locale) {
                Some(t) => Some(t@),
                None => None::<Seq<char>>,
            },
{
}

} // verus!
