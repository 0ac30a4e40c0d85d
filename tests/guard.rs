use laskutin::calendar::Date;
use laskutin::database::Database;
use laskutin::models::{Address, DbError, Household, Member, MemberType, MembershipFee};

fn date(year: i32, month: u32, day: u32) -> Date {
    Date { year, month, day }
}

fn household(id: i64) -> Household {
    Household {
        id,
        talouden_nimi: Some(format!("Talous {}", id)),
        vastaanottaja: None,
        laskutusosoite_sama: true,
        laskutusosoite_id: None,
    }
}

fn address(id: i64, talous_id: i64) -> Address {
    Address {
        id,
        katuosoite: "Rantatie 2".to_string(),
        postinumero: "33100".to_string(),
        postitoimipaikka: "Tampere".to_string(),
        talous_id,
    }
}

fn member(id: i64, osoite_id: i64) -> Member {
    Member {
        id,
        etunimi: "Etu".to_string(),
        sukunimi: format!("Suku{}", id),
        henkilotunnus: None,
        syntymaaika: Some(date(1980, 6, 1)),
        puhelinnumero: None,
        sahkoposti: Some("a@b.fi".to_string()),
        osoite_id,
        liittymispaiva: date(2021, 5, 5),
        jasentyyppi: MemberType::Varsinainen,
        aktiivinen: true,
    }
}

/// Household 1 with members 1 and 2, household 2 with member 3.
fn register() -> Database {
    let mut db = Database::new();
    db.households = vec![household(1), household(2)];
    db.addresses = vec![address(10, 1), address(20, 2)];
    db.members = vec![member(1, 10), member(2, 10), member(3, 20)];
    db.membership_fees = vec![MembershipFee {
        id: 1,
        vuosi: 2024,
        jasentyyppi: MemberType::Varsinainen,
        summa: 3000,
    }];
    db
}

fn member_ids(db: &Database) -> Vec<i64> {
    db.members.iter().map(|m| m.id).collect()
}

#[test]
fn member_with_invoice_lines_is_kept() {
    let mut db = register();
    db.create_invoices_on(2024, date(2024, 1, 10), date(2024, 2, 9)).unwrap();
    assert_eq!(db.delete_member(3), Err(DbError::ReferentialIntegrity));
    assert_eq!(member_ids(&db), vec![1, 2, 3]);
    assert_eq!(db.households.len(), 2);
    assert_eq!(db.addresses.len(), 2);
    assert_eq!(db.invoices.len(), 2);
}

#[test]
fn deleting_last_member_removes_household_and_address() {
    let mut db = register();
    assert_eq!(db.delete_member(3), Ok(()));
    assert_eq!(member_ids(&db), vec![1, 2]);
    assert_eq!(db.households.len(), 1);
    assert_eq!(db.households[0].id, 1);
    assert_eq!(db.addresses.len(), 1);
    assert_eq!(db.addresses[0].talous_id, 1);
}

#[test]
fn deleting_other_member_keeps_household() {
    let mut db = register();
    assert_eq!(db.delete_member(1), Ok(()));
    assert_eq!(member_ids(&db), vec![2, 3]);
    assert_eq!(db.households.len(), 2);
    assert_eq!(db.addresses.len(), 2);
    assert_eq!(db.get_household_member_count(1), 1);
}

#[test]
fn deleting_unknown_member_is_not_found() {
    let mut db = register();
    assert_eq!(db.delete_member(99), Err(DbError::NotFound(99)));
    assert_eq!(member_ids(&db), vec![1, 2, 3]);
}

#[test]
fn deleting_household_removes_members_and_address() {
    let mut db = register();
    assert_eq!(db.delete_household(1), Ok(()));
    assert_eq!(member_ids(&db), vec![3]);
    assert_eq!(db.households.len(), 1);
    assert_eq!(db.addresses.len(), 1);
    assert_eq!(db.addresses[0].id, 20);
}

#[test]
fn deleting_household_with_billing_history_is_refused() {
    let mut db = register();
    db.create_invoices_on(2024, date(2024, 1, 10), date(2024, 2, 9)).unwrap();
    assert_eq!(db.delete_household(1), Err(DbError::ReferentialIntegrity));
    assert_eq!(member_ids(&db), vec![1, 2, 3]);
    assert_eq!(db.households.len(), 2);
}

#[test]
fn deleting_unknown_household_is_not_found() {
    let mut db = register();
    assert_eq!(db.delete_household(7), Err(DbError::NotFound(7)));
    assert_eq!(db.households.len(), 2);
}

#[test]
fn member_count_of_household() {
    let db = register();
    assert_eq!(db.get_household_member_count(1), 2);
    assert_eq!(db.get_household_member_count(2), 1);
    assert_eq!(db.get_household_member_count(3), 0);
}

#[test]
fn marking_invoice_paid() {
    let mut db = register();
    db.create_invoices_on(2024, date(2024, 1, 10), date(2024, 2, 9)).unwrap();
    let paid = db.mark_invoice_paid(2, date(2024, 1, 20)).unwrap();
    assert!(paid.maksettu);
    assert_eq!(paid.maksupaiva, Some(date(2024, 1, 20)));
    assert_eq!(paid.summa, 3000);
    assert!(db.invoices[1].maksettu);
    assert!(!db.invoices[0].maksettu);
    assert_eq!(db.mark_invoice_paid(9, date(2024, 1, 20)).unwrap_err(), DbError::NotFound(9));
}

#[test]
fn deleting_invoice_frees_member() {
    let mut db = register();
    db.create_invoices_on(2024, date(2024, 1, 10), date(2024, 2, 9)).unwrap();
    assert_eq!(db.delete_invoice(2), Ok(()));
    assert_eq!(db.invoices.len(), 1);
    assert_eq!(db.delete_invoice(2), Err(DbError::NotFound(2)));
    assert_eq!(db.delete_member(3), Ok(()));
}

#[test]
fn dashboard_figures() {
    let mut db = register();
    db.create_invoices_on(2024, date(2024, 1, 10), date(2024, 2, 9)).unwrap();
    db.mark_invoice_paid(2, date(2025, 1, 3)).unwrap();
    let stats = db.get_dashboard_stats(2025);
    assert_eq!(stats.total_members, 3);
    assert_eq!(stats.open_invoices, 1);
    assert_eq!(stats.total_receivables, 6000);
    assert_eq!(stats.yearly_income, 3000);
    assert_eq!(db.get_yearly_income(2024), 0);
}
