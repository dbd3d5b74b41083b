use veronex::domain::enums::{
    AccountRole, ApiFormat, JobSource, JobStatus, KeyTier, KeyType, ProviderType, ALL_MENUS,
    ALL_PERMISSIONS,
};

#[test]
fn all_permissions_count() {
    assert_eq!(ALL_PERMISSIONS.len(), 9);
}

#[test]
fn all_menus_count() {
    assert_eq!(ALL_MENUS.len(), 12);
}

#[test]
fn permission_as_str_roundtrip() {
    for &p in ALL_PERMISSIONS {
        assert!(!p.is_empty());
    }
}

#[test]
fn menu_as_str_roundtrip() {
    for &m in ALL_MENUS {
        assert!(!m.is_empty());
    }
}

#[test]
fn role_manage_in_all_permissions() {
    assert!(ALL_PERMISSIONS.contains(&"role_manage"));
}

#[test]
fn account_role_roundtrip() {
    for role in &[AccountRole::Super, AccountRole::Admin] {
        let s = role.as_str();
        let parsed: AccountRole = s.parse().unwrap();
        assert_eq!(*role, parsed);
    }
}

#[test]
fn account_role_invalid() {
    assert!("viewer".parse::<AccountRole>().is_err());
}

#[test]
fn provider_type_roundtrip() {
    for pt in &[ProviderType::Ollama, ProviderType::Gemini] {
        let s = pt.as_str();
        let parsed: ProviderType = s.parse().unwrap();
        assert_eq!(*pt, parsed);
    }
}

#[test]
fn job_status_roundtrip() {
    for status in &[
        JobStatus::Pending,
        JobStatus::Running,
        JobStatus::Completed,
        JobStatus::Failed,
        JobStatus::Cancelled,
    ] {
        let s = status.as_str();
        let parsed: JobStatus = s.parse().unwrap();
        assert_eq!(*status, parsed);
    }
}

#[test]
fn job_source_roundtrip() {
    for src in &[JobSource::Api, JobSource::Test, JobSource::Analyzer] {
        let s = src.as_str();
        let parsed: JobSource = s.parse().unwrap();
        assert_eq!(*src, parsed);
    }
}

#[test]
fn api_format_roundtrip() {
    for fmt in &[
        ApiFormat::OpenaiCompat,
        ApiFormat::OllamaNative,
        ApiFormat::GeminiNative,
        ApiFormat::VeronexNative,
    ] {
        let s = fmt.as_str();
        let parsed: ApiFormat = s.parse().unwrap();
        assert_eq!(*fmt, parsed);
    }
}

#[test]
fn key_tier_roundtrip() {
    for tier in &[KeyTier::Free, KeyTier::Paid] {
        let s = tier.as_str();
        let parsed: KeyTier = s.parse().unwrap();
        assert_eq!(*tier, parsed);
    }
}

#[test]
fn key_type_roundtrip() {
    for kt in &[KeyType::Standard, KeyType::Test] {
        let s = kt.as_str();
        let parsed: KeyType = s.parse().unwrap();
        assert_eq!(*kt, parsed);
    }
}

#[test]
fn key_type_is_test() {
    assert!(!KeyType::Standard.is_test());
    assert!(KeyType::Test.is_test());
}

#[test]
fn provider_type_resource_type() {
    assert_eq!(ProviderType::Ollama.resource_type(), "ollama_provider");
    assert_eq!(ProviderType::Gemini.resource_type(), "gemini_provider");
}

// ── Additional checks of the parsing rules ───────────────────────────────────

#[test]
fn key_tier_parse_is_case_insensitive_and_reports_lowercase() {
    assert_eq!("FREE".parse::<KeyTier>().unwrap(), KeyTier::Free);
    assert_eq!("Paid".parse::<KeyTier>().unwrap(), KeyTier::Paid);
    assert_eq!("GOLD".parse::<KeyTier>().unwrap_err(), "invalid tier: gold");
    assert_eq!("TeSt".parse::<KeyType>().unwrap(), KeyType::Test);
    assert_eq!("Other".parse::<KeyType>().unwrap_err(), "invalid key_type: other");
}

#[test]
fn case_sensitive_parsers_reject_other_case_with_message() {
    assert_eq!("Admin".parse::<AccountRole>().unwrap_err(), "invalid role: Admin");
    assert_eq!("OLLAMA".parse::<ProviderType>().unwrap_err(), "unknown provider type: OLLAMA");
    assert_eq!("done".parse::<JobStatus>().unwrap_err(), "unknown job status: done");
    assert_eq!("x".parse::<ApiFormat>().unwrap_err(), "unknown ApiFormat: x");
    assert_eq!("web".parse::<JobSource>().unwrap_err(), "invalid job source: web");
    assert_eq!("whisper".parse::<ProviderType>().unwrap(), ProviderType::Whisper);
}

#[test]
fn defaults_match_documented_variants() {
    assert_eq!(JobSource::default(), JobSource::Api);
    assert_eq!(ApiFormat::default(), ApiFormat::OpenaiCompat);
    assert_eq!(KeyTier::default(), KeyTier::Paid);
    assert_eq!(KeyType::default(), KeyType::Standard);
}
