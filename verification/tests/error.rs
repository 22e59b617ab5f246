use datum::error::{DbError, ErrorKind};

#[test]
fn every_error_has_its_family() {
    assert_eq!(DbError::NotConnected.kind(), ErrorKind::NotConnected);
    assert_eq!(DbError::EmptyInsert.kind(), ErrorKind::Validation);
    assert_eq!(DbError::EmptyUpdate.kind(), ErrorKind::Validation);
    assert_eq!(DbError::UnknownTable("t".to_string()).kind(), ErrorKind::Validation);
    assert_eq!(DbError::UnknownColumn("c".to_string()).kind(), ErrorKind::Validation);
    assert_eq!(DbError::Query("boom".to_string()).kind(), ErrorKind::Query);
    assert_eq!(DbError::Decode("bad".to_string()).kind(), ErrorKind::Decode);
}

#[test]
fn every_error_has_its_message() {
    assert_eq!(DbError::NotConnected.message(), "Brak połączenia z bazą danych");
    assert_eq!(DbError::EmptyInsert.message(), "Brak danych do wstawienia");
    assert_eq!(DbError::EmptyUpdate.message(), "Brak danych do aktualizacji");
    assert_eq!(DbError::UnknownTable("ghosts".to_string()).message(), "Nieznana tabela: ghosts");
    assert_eq!(DbError::UnknownColumn("tail".to_string()).message(), "Nieznana kolumna: tail");
    assert_eq!(DbError::Query("Duplicate entry".to_string()).message(), "Duplicate entry");
    assert_eq!(DbError::Decode("not utf-8".to_string()).message(), "not utf-8");
}
