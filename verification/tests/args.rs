use std::path::PathBuf;

use birthday_reminder::Args;

#[test]
fn maintainer_is_the_named_user_or_the_default() {
    let named = Args {
        token_path: None,
        backup_path: PathBuf::from("backup.json"),
        maintainer_user_id: Some(12),
    };
    assert_eq!(named.maintainer(), 12);
    let unnamed = Args {
        token_path: Some(PathBuf::from("token.txt")),
        backup_path: PathBuf::from("backup.json"),
        maintainer_user_id: None,
    };
    assert_eq!(unnamed.maintainer(), 437067064);
    assert_eq!(unnamed.backup_path, PathBuf::from("backup.json"));
}
