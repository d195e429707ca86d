use twiggy::config::ThemeType;

#[test]
fn test_theme_type_equality() {
    assert_eq!(ThemeType::Light, ThemeType::Light);
    assert_eq!(ThemeType::Dark, ThemeType::Dark);
    assert_eq!(ThemeType::System, ThemeType::System);

    assert_ne!(ThemeType::Light, ThemeType::Dark);
    assert_ne!(ThemeType::Dark, ThemeType::System);
    assert_ne!(ThemeType::Light, ThemeType::System);
}
