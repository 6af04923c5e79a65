use nmkup::build_info::get_version;
use nmkup::error::Error;
use nmkup::quoting::build_vim_init;
use nmkup::target::{detect, Target};

#[test]
fn test_build_vim_init() {
    let vim_dir = "/home/user/.nmk/vim";
    let actual = build_vim_init(vim_dir);
    assert_eq!(actual, "source /home/user/.nmk/vim/init.vim");

    let vim_dir = "/home/user with space/.nmk/vim";
    let actual = build_vim_init(vim_dir);
    assert_eq!(actual, "source '/home/user with space/.nmk/vim/init.vim'");
}

#[test]
fn test_build_vim_init_quotes_embedded_quote() {
    let actual = build_vim_init("/home/o'brien/.nmk/vim");
    assert_eq!(actual, r#"source '/home/o'\''brien/.nmk/vim/init.vim'"#);
}

#[test]
fn test_get_version() {
    let hash = "f3a9c21".to_string();
    assert_eq!(get_version(Some(&hash), false), Some("#f3a9c21".to_string()));
    assert_eq!(get_version(Some(&hash), true), Some("#f3a9c21".to_string()));
    assert_eq!(get_version(None, true), Some("development".to_string()));
    assert_eq!(get_version(None, false), None);
}

#[test]
fn test_detect_target() {
    assert_eq!(detect("x86_64", "linux"), Ok(Target::Amd64Linux));
    assert_eq!(detect("aarch64", "linux"), Ok(Target::Arm64Linux));
    assert_eq!(detect("mips", "linux"), Err(Error::UnsupportedTarget));
    assert_eq!(detect("x86_64", "macos"), Err(Error::UnsupportedTarget));
    assert_eq!(Error::UnsupportedTarget.message(), "unsupported architecture or os");
}

#[test]
fn test_remote_binary_name() {
    assert_eq!(
        Target::Amd64Linux.remote_binary_name("nmk"),
        "nmk-x86_64-unknown-linux-musl.xz"
    );
    assert_eq!(
        Target::Arm64Linux.remote_binary_name("nmk"),
        "nmk-aarch64-unknown-linux-musl.xz"
    );
}
