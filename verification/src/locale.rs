//! The supported user-interface languages and the locale table: every piece
//! of user-visible text (dialog titles, messages, buttons, status strings,
//! menu labels) keyed by language.

use vstd::prelude::*;

verus! {

/// The closed set of user-interface languages the tray supports.
#[derive(Clone, Copy, PartialEq, Eq, Structural, Debug)]
pub enum Language {
    /// English, the default.
    En,
    /// Korean.
    Ko,
}

/// The language selected by a language code: `"ko"` selects Korean; every
/// other code falls back to English, the default.
pub open spec fn spec_language_of(code: Seq<char>) -> Language {
    if code == "ko"@ {
        Language::Ko
    } else {
        Language::En
    }
}

impl Language {
    /// Parses a language code, falling back to the default for unknown codes.
    pub fn from_code(code: &str) -> (lang: Language)
        ensures
            lang == spec_language_of(code@),
    {
        proof {
            reveal_strlit("ko");
        }
        if code.unicode_len() == 2 && code.get_char(0) == 'k' && code.get_char(1) == 'o' {
            proof {
                assert(code@ =~= "ko"@);
            }
            Language::Ko
        } else {
            Language::En
        }
    }

    /// The code under which this language is reported to the host UI layer.
    pub fn code(self) -> (code: &'static str)
        ensures
            code@ == spec_code_of(self),
    {
        match self {
            Language::En => "en",
            Language::Ko => "ko",
        }
    }
}

/// The language code of each supported language.
pub open spec fn spec_code_of(lang: Language) -> Seq<char> {
    match lang {
        Language::En => "en"@,
        Language::Ko => "ko"@,
    }
}

/// All user-visible text of the update flow and the tray status area, in one
/// language. Strings that mention a version carry the `{version}` placeholder
/// and are rendered by substitution.
pub struct UpdateLocale {
    pub title_available: &'static str,
    pub message_available: &'static str,
    pub button_install: &'static str,
    pub button_later: &'static str,
    pub title_ready: &'static str,
    pub message_ready: &'static str,
    pub title_error_download: &'static str,
    pub message_error_download: &'static str,
    pub title_error_check: &'static str,
    pub message_error_check: &'static str,
    pub title_no_update: &'static str,
    pub message_no_update: &'static str,
    pub title_init_error: &'static str,
    pub message_init_error: &'static str,
    pub status_checking: &'static str,
    pub status_available: &'static str,
    pub status_latest: &'static str,
    pub status_failed: &'static str,
    pub install_menu_label: &'static str,
    pub check_menu_label: &'static str,
    pub retry_menu_label: &'static str,
}

/// The mathematical value of an [`UpdateLocale`]: each entry as a sequence
/// of characters.
pub struct LocaleText {
    pub title_available: Seq<char>,
    pub message_available: Seq<char>,
    pub button_install: Seq<char>,
    pub button_later: Seq<char>,
    pub title_ready: Seq<char>,
    pub message_ready: Seq<char>,
    pub title_error_download: Seq<char>,
    pub message_error_download: Seq<char>,
    pub title_error_check: Seq<char>,
    pub message_error_check: Seq<char>,
    pub title_no_update: Seq<char>,
    pub message_no_update: Seq<char>,
    pub title_init_error: Seq<char>,
    pub message_init_error: Seq<char>,
    pub status_checking: Seq<char>,
    pub status_available: Seq<char>,
    pub status_latest: Seq<char>,
    pub status_failed: Seq<char>,
    pub install_menu_label: Seq<char>,
    pub check_menu_label: Seq<char>,
    pub retry_menu_label: Seq<char>,
}

impl View for UpdateLocale {
    type V = LocaleText;

    open spec fn view(&self) -> LocaleText {
        LocaleText {
            title_available: self.title_available@,
            message_available: self.message_available@,
            button_install: self.button_install@,
            button_later: self.button_later@,
            title_ready: self.title_ready@,
            message_ready: self.message_ready@,
            title_error_download: self.title_error_download@,
            message_error_download: self.message_error_download@,
            title_error_check: self.title_error_check@,
            message_error_check: self.message_error_check@,
            title_no_update: self.title_no_update@,
            message_no_update: self.message_no_update@,
            title_init_error: self.title_init_error@,
            message_init_error: self.message_init_error@,
            status_checking: self.status_checking@,
            status_available: self.status_available@,
            status_latest: self.status_latest@,
            status_failed: self.status_failed@,
            install_menu_label: self.install_menu_label@,
            check_menu_label: self.check_menu_label@,
            retry_menu_label: self.retry_menu_label@,
        }
    }
}

/// The Korean locale table.
pub open spec fn spec_locale_ko() -> LocaleText {
    LocaleText {
        title_available: "업데이트 가능"@,
        message_available: "새 버전 {version}이 준비되었습니다. 지금 다운로드하고 설치할까요?"@,
        button_install: "설치"@,
        button_later: "나중에"@,
        title_ready: "업데이트 완료"@,
        message_ready: "업데이트가 설치되었습니다. ZeroHz를 다시 시작합니다."@,
        title_error_download: "업데이트 오류"@,
        message_error_download: "업데이트 다운로드/설치에 실패했습니다. 다시 시도해 주세요."@,
        title_error_check: "업데이트 확인 실패"@,
        message_error_check: "업데이트 확인에 실패했습니다. 인터넷 연결을 확인한 뒤 다시 시도해 주세요."@,
        title_no_update: "최신 버전입니다"@,
        message_no_update: "이미 최신 버전(v{version})을 사용 중입니다."@,
        title_init_error: "업데이트 초기화 실패"@,
        message_init_error: "업데이트 모듈을 초기화하지 못했습니다. 잠시 후 다시 시도해 주세요."@,
        status_checking: "… 업데이트 확인 중"@,
        status_available: "⬆ 업데이트 가능: v{version}"@,
        status_latest: "✓ 최신 버전"@,
        status_failed: "⚠ 업데이트 확인 실패"@,
        install_menu_label: "업데이트 설치 (v{version})"@,
        check_menu_label: "업데이트 확인"@,
        retry_menu_label: "업데이트 다시 확인"@,
    }
}

/// The English locale table, also the fallback for unknown language codes.
pub open spec fn spec_locale_en() -> LocaleText {
    LocaleText {
        title_available: "Update Available"@,
        message_available: "New version {version} is available. Download and install now?"@,
        button_install: "Install"@,
        button_later: "Later"@,
        title_ready: "Update Ready"@,
        message_ready: "Update installed. ZeroHz will restart to apply it."@,
        title_error_download: "Update Error"@,
        message_error_download: "Failed to download or install the update. Please try again."@,
        title_error_check: "Update Check Failed"@,
        message_error_check: "Failed to check for updates. Please check your connection and try again."@,
        title_no_update: "No Updates Available"@,
        message_no_update: "You are already running the latest version (v{version})."@,
        title_init_error: "Updater Error"@,
        message_init_error: "Failed to initialize the updater. Please try again later."@,
        status_checking: "… Checking for updates"@,
        status_available: "⬆ Update available: v{version}"@,
        status_latest: "✓ Up to date"@,
        status_failed: "⚠ Update check failed"@,
        install_menu_label: "Install update (v{version})"@,
        check_menu_label: "Check for Updates"@,
        retry_menu_label: "Retry update check"@,
    }
}

/// The locale table of a language.
pub open spec fn spec_locale(lang: Language) -> LocaleText {
    match lang {
        Language::En => spec_locale_en(),
        Language::Ko => spec_locale_ko(),
    }
}

/// The locale table for a language code; unknown codes fall back to the
/// default (English) table. Total: every code yields a complete table.
pub fn get_update_locale(lang: &str) -> (locale: UpdateLocale)
    ensures
        locale@ == spec_locale(spec_language_of(lang@)),
{
    Language::from_code(lang).locale()
}

impl Language {
    /// The locale table of this language.
    pub fn locale(self) -> (locale: UpdateLocale)
        ensures
            locale@ == spec_locale(self),
    {
        match self {
            Language::Ko => UpdateLocale {
                title_available: "업데이트 가능",
                message_available: "새 버전 {version}이 준비되었습니다. 지금 다운로드하고 설치할까요?",
                button_install: "설치",
                button_later: "나중에",
                title_ready: "업데이트 완료",
                message_ready: "업데이트가 설치되었습니다. ZeroHz를 다시 시작합니다.",
                title_error_download: "업데이트 오류",
                message_error_download: "업데이트 다운로드/설치에 실패했습니다. 다시 시도해 주세요.",
                title_error_check: "업데이트 확인 실패",
                message_error_check: "업데이트 확인에 실패했습니다. 인터넷 연결을 확인한 뒤 다시 시도해 주세요.",
                title_no_update: "최신 버전입니다",
                message_no_update: "이미 최신 버전(v{version})을 사용 중입니다.",
                title_init_error: "업데이트 초기화 실패",
                message_init_error: "업데이트 모듈을 초기화하지 못했습니다. 잠시 후 다시 시도해 주세요.",
                status_checking: "… 업데이트 확인 중",
                status_available: "⬆ 업데이트 가능: v{version}",
                status_latest: "✓ 최신 버전",
                status_failed: "⚠ 업데이트 확인 실패",
                install_menu_label: "업데이트 설치 (v{version})",
                check_menu_label: "업데이트 확인",
                retry_menu_label: "업데이트 다시 확인",
            },
            Language::En => UpdateLocale {
                title_available: "Update Available",
                message_available: "New version {version} is available. Download and install now?",
                button_install: "Install",
                button_later: "Later",
                title_ready: "Update Ready",
                message_ready: "Update installed. ZeroHz will restart to apply it.",
                title_error_download: "Update Error",
                message_error_download: "Failed to download or install the update. Please try again.",
                title_error_check: "Update Check Failed",
                message_error_check: "Failed to check for updates. Please check your connection and try again.",
                title_no_update: "No Updates Available",
                message_no_update: "You are already running the latest version (v{version}).",
                title_init_error: "Updater Error",
                message_init_error: "Failed to initialize the updater. Please try again later.",
                status_checking: "… Checking for updates",
                status_available: "⬆ Update available: v{version}",
                status_latest: "✓ Up to date",
                status_failed: "⚠ Update check failed",
                install_menu_label: "Install update (v{version})",
                check_menu_label: "Check for Updates",
                retry_menu_label: "Retry update check",
            },
        }
    }
}

} // verus!
