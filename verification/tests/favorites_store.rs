use conduit_core::error::ConduitError;
use conduit_core::favorites::FavoriteStore;

#[test]
fn add_favorite_is_an_upsert() {
    let mut favs = FavoriteStore::new();
    let first = favs.add_favorite(1, 10, 100);
    assert!(!first.is_deleted);
    let again = favs.add_favorite(1, 10, 200);
    assert_eq!(first, again);
    assert_eq!(favs.rows.len(), 1);
}

#[test]
fn remove_favorite_without_row_is_not_found() {
    let mut favs = FavoriteStore::new();
    let err = favs.remove_favorite(1, 10).unwrap_err();
    assert!(matches!(err, ConduitError::NotFound(_)));
}

#[test]
fn toggle_keeps_the_row_and_flips_the_flag() {
    let mut favs = FavoriteStore::new();
    favs.add_favorite(1, 10, 100);
    let removed = favs.remove_favorite(1, 10).unwrap();
    assert!(removed.is_deleted);
    assert_eq!(favs.rows.len(), 1);
    let re_added = favs.add_favorite(1, 10, 300);
    assert!(!re_added.is_deleted);
    // the original creation time survives the whole toggle
    assert_eq!(re_added.created_at, 100);
    assert_eq!(favs.rows.len(), 1);
    assert_eq!(favs.count_active(10), 1);
}

#[test]
fn get_by_article_returns_deleted_rows_too() {
    let mut favs = FavoriteStore::new();
    favs.add_favorite(1, 10, 100);
    favs.add_favorite(2, 10, 100);
    favs.add_favorite(3, 11, 100);
    favs.remove_favorite(2, 10).unwrap();

    let rows = favs.get_favorites_by_article_id(10);
    assert_eq!(rows.len(), 2);
    assert!(!rows[0].is_deleted);
    assert!(rows[1].is_deleted);
    assert_eq!(favs.count_active(10), 1);
    assert!(favs.is_favorited(1, 10));
    assert!(!favs.is_favorited(2, 10));
}
