use batch_kernel::batch::{
    init, print_app_info, AppManager, LoadOutcome, TableError, APP_SIZE_LIMIT, MAX_APP_NUM,
};

fn images_of(len: usize) -> Vec<u8> {
    (0..len).map(|i| (i % 251) as u8 + 1).collect()
}

#[test]
fn table_of_two_applications_is_accepted() {
    let images = images_of(5);
    let manager = AppManager::new(&[2, 0, 3, 5], &images).unwrap();
    assert_eq!(manager.num_app(), 2);
    assert_eq!(manager.get_current_app(), 0);
    assert_eq!(manager.print_app_info(), vec![(0, 3), (3, 5)]);
}

#[test]
fn table_without_applications_is_accepted() {
    let manager = AppManager::new(&[0, 0], &[]).unwrap();
    assert_eq!(manager.num_app(), 0);
    assert_eq!(manager.get_current_app(), 0);
    assert!(manager.print_app_info().is_empty());
}

#[test]
fn table_ignores_what_follows_the_last_boundary() {
    let images = images_of(4);
    let manager = AppManager::new(&[1, 1, 4, 99, 98], &images).unwrap();
    assert_eq!(manager.print_app_info(), vec![(1, 4)]);
}

#[test]
fn table_with_the_most_applications_is_accepted() {
    let images = images_of(16);
    let mut table = vec![MAX_APP_NUM];
    table.extend(0..=16);
    let manager = AppManager::new(&table, &images).unwrap();
    assert_eq!(manager.num_app(), 16);
    assert_eq!(manager.print_app_info()[15], (15, 16));
}

#[test]
fn empty_table_is_truncated() {
    assert_eq!(AppManager::new(&[], &[]).err(), Some(TableError::Truncated));
}

#[test]
fn table_that_ends_early_is_truncated() {
    let images = images_of(5);
    assert_eq!(AppManager::new(&[2, 0, 3], &images).err(), Some(TableError::Truncated));
    assert_eq!(AppManager::new(&[0], &images).err(), Some(TableError::Truncated));
}

#[test]
fn table_with_too_many_applications_is_refused() {
    let images = images_of(32);
    let mut table = vec![17];
    table.extend(0..=17);
    assert_eq!(AppManager::new(&table, &images).err(), Some(TableError::TooManyApps));
    // The count is judged before the length.
    assert_eq!(AppManager::new(&[17], &images).err(), Some(TableError::TooManyApps));
}

#[test]
fn table_with_a_falling_boundary_is_refused() {
    let images = images_of(8);
    assert_eq!(AppManager::new(&[2, 0, 5, 4], &images).err(), Some(TableError::Unordered));
}

#[test]
fn table_with_an_image_beyond_the_limit_is_refused() {
    let images = images_of(APP_SIZE_LIMIT + 1);
    assert_eq!(
        AppManager::new(&[1, 0, APP_SIZE_LIMIT + 1], &images).err(),
        Some(TableError::ImageTooLarge)
    );
}

#[test]
fn unordered_is_reported_before_too_large() {
    let images = images_of(8);
    assert_eq!(
        AppManager::new(&[2, 0, APP_SIZE_LIMIT + 1, 3], &images).err(),
        Some(TableError::Unordered)
    );
}

#[test]
fn table_that_points_beyond_the_images_is_refused() {
    let images = images_of(4);
    assert_eq!(AppManager::new(&[2, 0, 3, 5], &images).err(), Some(TableError::OutOfBounds));
}

#[test]
fn image_of_the_full_limit_is_accepted() {
    let images = images_of(APP_SIZE_LIMIT);
    let manager = AppManager::new(&[1, 0, APP_SIZE_LIMIT], &images).unwrap();
    let mut region = vec![0xaa_u8; APP_SIZE_LIMIT];
    assert_eq!(manager.load_app(0, &mut region), LoadOutcome::Loaded(APP_SIZE_LIMIT));
    assert_eq!(region, images);
}

#[test]
fn load_copies_the_image_and_clears_the_rest() {
    let images = images_of(10);
    let manager = AppManager::new(&[3, 0, 4, 4, 10], &images).unwrap();
    let mut region = vec![0xff_u8; APP_SIZE_LIMIT];
    assert_eq!(manager.load_app(2, &mut region), LoadOutcome::Loaded(6));
    assert_eq!(&region[..6], &images[4..10]);
    assert!(region[6..].iter().all(|&b| b == 0));
    assert_eq!(region.len(), APP_SIZE_LIMIT);
}

#[test]
fn load_of_a_shorter_image_leaves_nothing_of_the_longer() {
    let images = images_of(10);
    let manager = AppManager::new(&[2, 0, 8, 10], &images).unwrap();
    let mut region = vec![0_u8; APP_SIZE_LIMIT];
    assert_eq!(manager.load_app(0, &mut region), LoadOutcome::Loaded(8));
    assert_eq!(manager.load_app(1, &mut region), LoadOutcome::Loaded(2));
    assert_eq!(&region[..2], &images[8..10]);
    assert!(region[2..].iter().all(|&b| b == 0));
}

#[test]
fn load_of_an_empty_image_clears_the_region() {
    let images = images_of(10);
    let manager = AppManager::new(&[3, 0, 4, 4, 10], &images).unwrap();
    let mut region = vec![0xff_u8; APP_SIZE_LIMIT];
    assert_eq!(manager.load_app(1, &mut region), LoadOutcome::Loaded(0));
    assert!(region.iter().all(|&b| b == 0));
}

#[test]
fn load_beyond_the_last_application_touches_nothing() {
    let images = images_of(5);
    let manager = AppManager::new(&[2, 0, 3, 5], &images).unwrap();
    let mut region = vec![0x5a_u8; APP_SIZE_LIMIT];
    assert_eq!(manager.load_app(2, &mut region), LoadOutcome::AllCompleted);
    assert_eq!(manager.load_app(usize::MAX, &mut region), LoadOutcome::AllCompleted);
    assert!(region.iter().all(|&b| b == 0x5a));
}

#[test]
fn load_does_not_move_the_current_application() {
    let images = images_of(5);
    let manager = AppManager::new(&[2, 0, 3, 5], &images).unwrap();
    let mut region = vec![0_u8; APP_SIZE_LIMIT];
    manager.load_app(1, &mut region);
    assert_eq!(manager.get_current_app(), 0);
}

#[test]
fn current_application_is_stable_until_it_is_advanced() {
    let images = images_of(5);
    let mut manager = AppManager::new(&[2, 0, 3, 5], &images).unwrap();
    assert_eq!(manager.get_current_app(), 0);
    assert_eq!(manager.get_current_app(), 0);
    manager.move_to_next_app();
    assert_eq!(manager.get_current_app(), 1);
    assert_eq!(manager.get_current_app(), 1);
    manager.move_to_next_app();
    assert_eq!(manager.get_current_app(), 2);
    assert_eq!(manager.num_app(), 2);
    assert_eq!(manager.print_app_info(), vec![(0, 3), (3, 5)]);
}

#[test]
fn reports_agree() {
    let images = images_of(9);
    let manager = AppManager::new(&[3, 2, 2, 7, 9], &images).unwrap();
    let expected = vec![(2, 2), (2, 7), (7, 9)];
    assert_eq!(manager.print_app_info(), expected);
    assert_eq!(print_app_info(&manager), expected);
    assert_eq!(init(&manager), expected);
}
