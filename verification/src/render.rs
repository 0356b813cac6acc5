//! Rendering of locale text: `{version}` placeholder substitution and the
//! status-dependent texts of the tray (status label, action label, version
//! label).

use vstd::prelude::*;

use crate::locale::Language;
use crate::locale::spec_locale;
use crate::status::StatusView;
use crate::status::UpdateStatus;

verus! {

/// The placeholder that version-bearing locale entries carry.
pub open spec fn version_marker() -> Seq<char> {
    seq!['{', 'v', 'e', 'r', 's', 'i', 'o', 'n', '}']
}

/// Whether the `{version}` placeholder stands in `text` at position `i`.
pub open spec fn spec_marker_at(text: Seq<char>, i: int) -> bool {
    &&& 0 <= i
    &&& i + 9 <= text.len()
    &&& text.subrange(i, i + 9) == version_marker()
}

/// `text` with every occurrence of the `{version}` placeholder replaced by
/// `version`, scanning left to right without overlap.
pub open spec fn subst_version(text: Seq<char>, version: Seq<char>) -> Seq<char>
    decreases text.len(),
{
    if text.len() < 9 {
        text
    } else if text.subrange(0, 9) == version_marker() {
        version + subst_version(text.subrange(9, text.len() as int), version)
    } else {
        seq![text[0]] + subst_version(text.subrange(1, text.len() as int), version)
    }
}

proof fn lemma_subst_unfold_marker(text: Seq<char>, i: int, version: Seq<char>)
    requires
        spec_marker_at(text, i),
    ensures
        subst_version(text.subrange(i, text.len() as int), version) == version + subst_version(
            text.subrange(i + 9, text.len() as int),
            version,
        ),
{
    let n = text.len() as int;
    let tail = text.subrange(i, n);
    assert(tail.subrange(0, 9) =~= text.subrange(i, i + 9));
    assert(tail.subrange(9, tail.len() as int) =~= text.subrange(i + 9, n));
}

proof fn lemma_subst_unfold_char(text: Seq<char>, i: int, version: Seq<char>)
    requires
        0 <= i < text.len(),
        !spec_marker_at(text, i),
    ensures
        subst_version(text.subrange(i, text.len() as int), version) == seq![text[i]]
            + subst_version(text.subrange(i + 1, text.len() as int), version),
{
    let n = text.len() as int;
    let tail = text.subrange(i, n);
    if tail.len() < 9 {
        let rest = text.subrange(i + 1, n);
        assert(rest.len() < 9);
        assert(subst_version(rest, version) == rest);
        assert(tail =~= seq![text[i]] + rest);
    } else {
        assert(tail.subrange(0, 9) =~= text.subrange(i, i + 9));
        assert(tail.subrange(0, 9) != version_marker());
        assert(tail.subrange(1, tail.len() as int) =~= text.subrange(i + 1, n));
        assert(seq![tail[0]] =~= seq![text[i]]);
    }
}

fn marker_char(k: usize) -> (c: char)
    requires
        k < 9,
    ensures
        c == version_marker()[k as int],
{
    if k == 0 {
        '{'
    } else if k == 1 {
        'v'
    } else if k == 2 {
        'e'
    } else if k == 3 {
        'r'
    } else if k == 4 {
        's'
    } else if k == 5 {
        'i'
    } else if k == 6 {
        'o'
    } else if k == 7 {
        'n'
    } else {
        '}'
    }
}

fn is_marker_at(text: &str, i: usize, n: usize) -> (found: bool)
    requires
        n == text@.len(),
        i <= n,
    ensures
        found == spec_marker_at(text@, i as int),
{
    if n - i < 9 {
        return false;
    }
    let mut k: usize = 0;
    while k < 9
        invariant
            n == text@.len(),
            i + 9 <= n,
            k <= 9,
            forall|j: int| 0 <= j < k ==> text@[i + j] == version_marker()[j],
        decreases 9 - k,
    {
        if text.get_char(i + k) != marker_char(k) {
            proof {
                assert(text@.subrange(i as int, i + 9)[k as int] == text@[i + k]);
            }
            return false;
        }
        k = k + 1;
    }
    proof {
        assert(text@.subrange(i as int, i + 9) =~= version_marker());
    }
    true
}

/// Replaces every occurrence of the `{version}` placeholder in `template`
/// by `version`.
pub fn render_template(template: &str, version: &str) -> (rendered: String)
    ensures
        rendered@ == subst_version(template@, version@),
{
    let n = template.unicode_len();
    let mut out = String::new();
    let mut i: usize = 0;
    proof {
        assert(template@.subrange(0, n as int) =~= template@);
        assert(out@ + subst_version(template@, version@) =~= subst_version(template@, version@));
    }
    while i < n
        invariant
            n == template@.len(),
            i <= n,
            out@ + subst_version(template@.subrange(i as int, n as int), version@)
                == subst_version(template@, version@),
        decreases n - i,
    {
        if is_marker_at(template, i, n) {
            proof {
                lemma_subst_unfold_marker(template@, i as int, version@);
                assert((out@ + version@) + subst_version(
                    template@.subrange(i + 9, n as int),
                    version@,
                ) =~= out@ + (version@ + subst_version(
                    template@.subrange(i + 9, n as int),
                    version@,
                )));
            }
            out.append(version);
            i = i + 9;
        } else {
            proof {
                lemma_subst_unfold_char(template@, i as int, version@);
                assert((out@ + seq![template@[i as int]]) + subst_version(
                    template@.subrange(i + 1, n as int),
                    version@,
                ) =~= out@ + (seq![template@[i as int]] + subst_version(
                    template@.subrange(i + 1, n as int),
                    version@,
                )));
            }
            let c = template.substring_char(i, i + 1);
            proof {
                assert(c@ =~= seq![template@[i as int]]);
            }
            out.append(c);
            i = i + 1;
        }
    }
    proof {
        assert(template@.subrange(n as int, n as int) =~= Seq::<char>::empty());
        assert(out@ + Seq::<char>::empty() =~= out@);
    }
    out
}

/// The status-label text of the tray for a language and an update status.
pub open spec fn spec_status_text(lang: Language, status: StatusView) -> Seq<char> {
    match status {
        StatusView::Checking => spec_locale(lang).status_checking,
        StatusView::Available(v) => subst_version(spec_locale(lang).status_available, v),
        StatusView::Latest(v) => subst_version(spec_locale(lang).status_latest, v),
        StatusView::Failed => spec_locale(lang).status_failed,
    }
}

/// The action-item text of the tray (check, install, or retry) for a
/// language and an update status.
pub open spec fn spec_action_text(lang: Language, status: StatusView) -> Seq<char> {
    match status {
        StatusView::Checking => spec_locale(lang).check_menu_label,
        StatusView::Available(v) => subst_version(spec_locale(lang).install_menu_label, v),
        StatusView::Latest(_) => spec_locale(lang).check_menu_label,
        StatusView::Failed => spec_locale(lang).retry_menu_label,
    }
}

/// The version-label text of the tray for a language.
pub open spec fn spec_version_label(lang: Language, version: Seq<char>) -> Seq<char> {
    match lang {
        Language::En => "Version "@ + version,
        Language::Ko => "버전 "@ + version,
    }
}

proof fn lemma_subst_keeps_head(text: Seq<char>, version: Seq<char>)
    requires
        text.len() > 0,
        text[0] != '{',
    ensures
        subst_version(text, version).len() > 0,
{
    if text.len() >= 9 && text.subrange(0, 9) == version_marker() {
        assert(text.subrange(0, 9)[0] == text[0]);
        assert(version_marker()[0] == '{');
    }
}

/// Rendering is total: for every supported language and every update
/// status, the rendered status text and the rendered action label are
/// non-empty. Together with `render_status_text` and `render_action_text`
/// being defined for all inputs, no language/status pair is left without
/// text.
pub proof fn lemma_render_total(lang: Language, status: StatusView)
    ensures
        spec_status_text(lang, status).len() > 0,
        spec_action_text(lang, status).len() > 0,
{
    reveal_strlit("… Checking for updates");
    reveal_strlit("⬆ Update available: v{version}");
    reveal_strlit("✓ Up to date");
    reveal_strlit("⚠ Update check failed");
    reveal_strlit("Check for Updates");
    reveal_strlit("Install update (v{version})");
    reveal_strlit("Retry update check");
    reveal_strlit("… 업데이트 확인 중");
    reveal_strlit("⬆ 업데이트 가능: v{version}");
    reveal_strlit("✓ 최신 버전");
    reveal_strlit("⚠ 업데이트 확인 실패");
    reveal_strlit("업데이트 확인");
    reveal_strlit("업데이트 설치 (v{version})");
    reveal_strlit("업데이트 다시 확인");
    match status {
        StatusView::Available(v) => {
            lemma_subst_keeps_head(spec_locale(lang).status_available, v);
            lemma_subst_keeps_head(spec_locale(lang).install_menu_label, v);
        },
        StatusView::Latest(v) => {
            lemma_subst_keeps_head(spec_locale(lang).status_latest, v);
        },
        _ => {},
    }
}

/// Renders the tray's status label for a language and a status.
pub fn render_status_text(lang: Language, status: &UpdateStatus) -> (text: String)
    ensures
        text@ == spec_status_text(lang, status@),
{
    let locale = lang.locale();
    match status {
        UpdateStatus::Checking => String::from_str(locale.status_checking),
        UpdateStatus::Available(v) => render_template(locale.status_available, v.as_str()),
        UpdateStatus::Latest(v) => render_template(locale.status_latest, v.as_str()),
        UpdateStatus::Failed => String::from_str(locale.status_failed),
    }
}

/// Renders the tray's action-item label for a language and a status.
pub fn render_action_text(lang: Language, status: &UpdateStatus) -> (text: String)
    ensures
        text@ == spec_action_text(lang, status@),
{
    let locale = lang.locale();
    match status {
        UpdateStatus::Checking => String::from_str(locale.check_menu_label),
        UpdateStatus::Available(v) => render_template(locale.install_menu_label, v.as_str()),
        UpdateStatus::Latest(_) => String::from_str(locale.check_menu_label),
        UpdateStatus::Failed => String::from_str(locale.retry_menu_label),
    }
}

/// Renders the tray's version label for a language.
pub fn render_version_label(lang: Language, version: &str) -> (text: String)
    ensures
        text@ == spec_version_label(lang, version@),
{
    let mut out = match lang {
        Language::En => String::from_str("Version "),
        Language::Ko => String::from_str("버전 "),
    };
    out.append(version);
    out
}

} // verus!
