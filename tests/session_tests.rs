use lock_cli::keys::{new_private_key, KeyError, MIN_KEY_SIZE};
use lock_cli::session::{
    check_in_range, default_level, default_profile, make_profile, needs_large_file, pick_paths,
    profile_for_file, ArchiveCommand, Compression, DecryptMode, EncryptMode, KeyCommand, MainCommand,
    NumberError, ProfileError, PublicKeySource, RsaPrivateKeySource, RsaPublicKeySource, SignersCommand,
    StorageProfile, LARGE_FILE_SIZE,
};

#[test]
fn menu_positions_map_to_commands() {
    assert_eq!(MainCommand::from_index(0), MainCommand::EncryptedFile);
    assert_eq!(MainCommand::from_index(2), MainCommand::Signers);
    assert_eq!(MainCommand::from_index(3), MainCommand::Exit);
    assert_eq!(ArchiveCommand::from_index(5), ArchiveCommand::CloneWithout);
    assert_eq!(ArchiveCommand::from_index(7), ArchiveCommand::Exit);
    assert_eq!(EncryptMode::from_index(1), EncryptMode::EncryptAndSign);
    assert_eq!(DecryptMode::from_index(2), DecryptMode::FindSigner);
    assert_eq!(DecryptMode::from_index(9), DecryptMode::Exit);
    assert_eq!(KeyCommand::from_index(4), KeyCommand::OpenRsaPublicKey);
    assert_eq!(RsaPublicKeySource::from_index(3), RsaPublicKeySource::PublicKey);
    assert_eq!(PublicKeySource::from_index(1), PublicKeySource::PrivateKey);
    assert_eq!(RsaPrivateKeySource::from_index(2), RsaPrivateKeySource::Exit);
    assert_eq!(SignersCommand::from_index(3), SignersCommand::ExtractSignerKey);
    assert_eq!(Compression::from_choice(3), Some(Compression::Zstd));
    assert_eq!(Compression::from_choice(4), None);
}

#[test]
fn compression_levels_follow_method_ranges() {
    assert_eq!(default_level(Compression::Deflated), Some(6));
    assert_eq!(default_level(Compression::Zstd), Some(3));
    assert_eq!(default_level(Compression::Stored), None);
    assert_eq!(
        make_profile(Compression::Bzip2, Some(9)),
        Ok(StorageProfile { method: Compression::Bzip2, level: Some(9), large_file: false })
    );
    assert_eq!(make_profile(Compression::Deflated, Some(10)), Err(ProfileError::LevelOutOfRange));
    assert_eq!(make_profile(Compression::Zstd, Some(-7)).map(|p| p.level), Ok(Some(-7)));
    assert_eq!(make_profile(Compression::Zstd, Some(23)), Err(ProfileError::LevelOutOfRange));
    assert_eq!(make_profile(Compression::Stored, Some(1)), Err(ProfileError::LevelNotApplicable));
    assert_eq!(make_profile(Compression::Stored, None).map(|p| p.method), Ok(Compression::Stored));
}

#[test]
fn large_file_threshold_is_four_gib() {
    assert_eq!(LARGE_FILE_SIZE, 4_294_967_296);
    assert!(!needs_large_file(4_294_967_295));
    assert!(needs_large_file(4_294_967_296));
    let p = profile_for_file(default_profile(), 5_000_000_000);
    assert!(p.large_file);
    assert_eq!(p.method, Compression::Deflated);
    assert!(!profile_for_file(p, 10).large_file);
}

#[test]
fn picked_paths_follow_choice_order() {
    let files = vec!["a".to_string(), "b".to_string(), "c".to_string()];
    assert_eq!(pick_paths(&files, &vec![1]), Some(vec!["b".to_string()]));
    assert_eq!(pick_paths(&files, &vec![2, 0]), Some(vec!["c".to_string(), "a".to_string()]));
    assert_eq!(pick_paths(&files, &vec![]), Some(vec![]));
    assert_eq!(pick_paths(&files, &vec![0, 3]), None);
}

#[test]
fn entered_numbers_are_checked() {
    assert_eq!(check_in_range(Some(9), 0, 9), Ok(9));
    assert_eq!(check_in_range(Some(-8), -7, 22), Err(NumberError::OutOfRange));
    assert_eq!(check_in_range(None, 0, 9), Err(NumberError::NotANumber));
}

#[test]
fn small_key_size_is_refused() {
    assert_eq!(MIN_KEY_SIZE, 2048);
    assert!(matches!(new_private_key(1024), Err(KeyError::KeySizeTooSmall)));
    assert!(matches!(new_private_key(2047), Err(KeyError::KeySizeTooSmall)));
}
