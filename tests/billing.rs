use laskutin::billing::{due_date_for, CreationCheck};
use laskutin::calendar::{parse_date, Date};
use chrono::Datelike;
use laskutin::database::Database;
use laskutin::models::{Address, DbError, Household, Member, MemberType, MembershipFee};

fn date(year: i32, month: u32, day: u32) -> Date {
    Date { year, month, day }
}

fn household(id: i64) -> Household {
    Household {
        id,
        talouden_nimi: None,
        vastaanottaja: None,
        laskutusosoite_sama: true,
        laskutusosoite_id: None,
    }
}

fn address(id: i64, talous_id: i64) -> Address {
    Address {
        id,
        katuosoite: "Kotikatu 1".to_string(),
        postinumero: "00100".to_string(),
        postitoimipaikka: "Helsinki".to_string(),
        talous_id,
    }
}

fn member(id: i64, first: &str, last: &str, osoite_id: i64, t: MemberType, active: bool) -> Member {
    Member {
        id,
        etunimi: first.to_string(),
        sukunimi: last.to_string(),
        henkilotunnus: None,
        syntymaaika: None,
        puhelinnumero: None,
        sahkoposti: None,
        osoite_id,
        liittymispaiva: date(2020, 1, 1),
        jasentyyppi: t,
        aktiivinen: active,
    }
}

fn fee(id: i64, vuosi: i32, t: MemberType, summa: i64) -> MembershipFee {
    MembershipFee { id, vuosi, jasentyyppi: t, summa }
}

/// Household 1: two members (regular and supporting); household 2: one
/// honorary member with a zero fee; household 3: one inactive member.
fn sample() -> Database {
    let mut db = Database::new();
    db.households = vec![household(1), household(2), household(3)];
    db.addresses = vec![address(11, 1), address(12, 2), address(13, 3)];
    db.members = vec![
        member(101, "Anna", "Virtanen", 11, MemberType::Varsinainen, true),
        member(102, "Pekka", "Virtanen", 11, MemberType::Kannatus, true),
        member(103, "Liisa", "Korhonen", 12, MemberType::Kunnia, true),
        member(104, "Matti", "Nieminen", 13, MemberType::Varsinainen, false),
    ];
    db.membership_fees = vec![
        fee(1, 2024, MemberType::Varsinainen, 2500),
        fee(2, 2024, MemberType::Kannatus, 5000),
        fee(3, 2024, MemberType::Kunnia, 0),
        fee(4, 2023, MemberType::Varsinainen, 2000),
    ];
    db
}

fn run_2024(db: &mut Database) -> Vec<laskutin::models::Invoice> {
    db.create_invoices_on(2024, date(2024, 3, 1), date(2024, 3, 31)).unwrap()
}

#[test]
fn resolve_fee_finds_year_and_type() {
    let db = sample();
    assert_eq!(db.resolve_fee(2024, MemberType::Kannatus), Some(5000));
    assert_eq!(db.resolve_fee(2023, MemberType::Varsinainen), Some(2000));
    assert_eq!(db.resolve_fee(2023, MemberType::Kannatus), None);
    assert_eq!(db.resolve_fee(2025, MemberType::Varsinainen), None);
}

#[test]
fn run_creates_one_invoice_per_household_with_lines() {
    let mut db = sample();
    let created = run_2024(&mut db);
    assert_eq!(created.len(), 1);
    let c = &created[0];
    assert_eq!(c.id, 1);
    assert_eq!(c.talous_id, 1);
    assert_eq!(c.summa, 7500);
    assert_eq!(c.luontipaiva, date(2024, 3, 1));
    assert_eq!(c.erapaiva, date(2024, 3, 31));
    assert!(!c.maksettu);
    assert_eq!(c.maksupaiva, None);
    assert_eq!(c.viitenumero, "2024000013");
    assert_eq!(c.laskunumero, Some("2024-001".to_string()));
    assert_eq!(c.rivit.len(), 2);
    assert_eq!(c.rivit[0].jasen_id, 101);
    assert_eq!(c.rivit[0].summa, 2500);
    assert_eq!(c.rivit[0].kuvaus, "Membership fee 2024 - Anna Virtanen");
    assert_eq!(c.rivit[1].jasen_id, 102);
    assert_eq!(c.rivit[1].summa, 5000);
    assert_eq!(c.rivit[1].kuvaus, "Membership fee 2024 - Pekka Virtanen");
    assert_eq!(db.invoices.len(), 1);
    assert_eq!(db.invoices[0].summa, 7500);
}

#[test]
fn invoice_amount_equals_sum_of_lines() {
    let mut db = sample();
    db.members.push(member(105, "Olli", "Koski", 12, MemberType::Varsinainen, true));
    let created = run_2024(&mut db);
    assert_eq!(created.len(), 2);
    for c in &created {
        let sum: i64 = c.rivit.iter().map(|l| l.summa).sum();
        assert_eq!(c.summa, sum);
    }
    assert_eq!(created[1].talous_id, 2);
    assert_eq!(created[1].summa, 2500);
    assert_eq!(created[1].id, 2);
}

#[test]
fn second_run_in_same_year_creates_nothing() {
    let mut db = sample();
    let first = run_2024(&mut db);
    assert_eq!(first.len(), 1);
    let second = run_2024(&mut db);
    assert!(second.is_empty());
    assert_eq!(db.invoices.len(), 1);
}

#[test]
fn zero_fee_household_gets_no_invoice() {
    let mut db = sample();
    let created = run_2024(&mut db);
    assert!(created.iter().all(|c| c.talous_id != 2));
}

#[test]
fn new_ids_follow_the_largest_existing_id() {
    let mut db = sample();
    let earlier = db.create_invoices_on(2023, date(2023, 2, 1), date(2023, 3, 3)).unwrap();
    assert_eq!(earlier.len(), 1);
    db.invoices[0].id = 40;
    let created = run_2024(&mut db);
    assert_eq!(created[0].id, 41);
}

#[test]
fn run_fails_without_change_when_total_overflows() {
    let mut db = sample();
    db.membership_fees[0].summa = i64::MAX;
    db.membership_fees[1].summa = 1;
    let r = db.create_invoices_on(2024, date(2024, 3, 1), date(2024, 3, 31));
    assert_eq!(r.unwrap_err(), DbError::OutOfRange);
    assert!(db.invoices.is_empty());
}

#[test]
fn check_reports_missing_fees() {
    let db = sample();
    match db.check_invoice_creation(2023) {
        CreationCheck::MissingFees(ts) => {
            assert_eq!(ts, vec![MemberType::Kannatus, MemberType::Kunnia])
        }
        other => panic!("unexpected {:?}", other),
    }
    assert_eq!(
        db.validate_invoice_creation(2023),
        Err(DbError::Validation(
            "Membership fees are missing for year 2023 for member types: kannatus, kunnia. Define the fees before creating invoices."
                .to_string()
        ))
    );
}

#[test]
fn check_reports_no_active_members() {
    let mut db = sample();
    for m in db.members.iter_mut() {
        m.aktiivinen = false;
    }
    assert_eq!(db.check_invoice_creation(2024), CreationCheck::NoActiveMembers);
    assert_eq!(
        db.validate_invoice_creation(2024),
        Err(DbError::Validation("No active members to invoice.".to_string()))
    );
}

#[test]
fn check_reports_already_invoiced() {
    let mut db = sample();
    run_2024(&mut db);
    assert_eq!(db.check_invoice_creation(2024), CreationCheck::AlreadyInvoiced(1));
    assert_eq!(
        db.validate_invoice_creation(2024),
        Err(DbError::Validation(
            "Invoices have already been created for year 2024. 1 invoices exist.".to_string()
        ))
    );
}

#[test]
fn check_reports_nothing_to_invoice() {
    let mut db = sample();
    db.members.remove(1);
    db.members.remove(0);
    assert_eq!(db.check_invoice_creation(2024), CreationCheck::NothingToInvoice);
    assert_eq!(
        db.validate_invoice_creation(2024),
        Err(DbError::Validation("No members to invoice for year 2024.".to_string()))
    );
}

#[test]
fn validation_count_matches_run() {
    let mut db = sample();
    db.members.push(member(105, "Olli", "Koski", 12, MemberType::Varsinainen, true));
    let check = db.check_invoice_creation(2024);
    assert_eq!(
        check,
        CreationCheck::Ready { new_invoices: 2, existing: 0, active_members: 4 }
    );
    assert_eq!(
        db.validate_invoice_creation(2024),
        Ok("Ready to create 2 invoices for 4 active members for year 2024.".to_string())
    );
    let created = run_2024(&mut db);
    assert_eq!(created.len(), 2);
}

#[test]
fn validation_message_counts_existing_invoices() {
    let mut db = sample();
    run_2024(&mut db);
    db.members.push(member(105, "Olli", "Koski", 12, MemberType::Varsinainen, true));
    assert_eq!(
        db.validate_invoice_creation(2024),
        Ok("Ready to create 1 new invoices for year 2024. 1 invoices already exist; invoices are created only for households that have none yet.".to_string())
    );
}

fn chrono_date(d: Date) -> chrono::NaiveDate {
    chrono::NaiveDate::from_ymd_opt(d.year, d.month, d.day).unwrap()
}

#[test]
fn dated_run_uses_todays_date_and_thirty_days() {
    let now = chrono::Utc::now().date_naive();
    let year = now.year();
    let mut db = sample();
    db.membership_fees = vec![
        fee(1, year, MemberType::Varsinainen, 2500),
        fee(2, year, MemberType::Kannatus, 5000),
        fee(3, year, MemberType::Kunnia, 0),
    ];
    let created = db.create_invoice_for_year(year).unwrap();
    assert_eq!(created.len(), 1);
    let created_on = chrono_date(created[0].luontipaiva);
    assert!(created_on == now || created_on == now + chrono::Days::new(1));
    assert_eq!(
        chrono_date(created[0].erapaiva),
        created_on + chrono::Days::new(30)
    );
    let again = db.create_invoice_for_year(year).unwrap();
    assert!(again.is_empty());
}

#[test]
fn dated_run_without_fees_creates_nothing() {
    let mut db = sample();
    assert!(db.create_invoice_for_year(1990).unwrap().is_empty());
    assert!(db.invoices.is_empty());
}

#[test]
fn payment_dates_parse_or_fail_with_parse_error() {
    assert_eq!(parse_date("2025-01-03"), Ok(date(2025, 1, 3)));
    assert_eq!(parse_date("2024-02-29"), Ok(date(2024, 2, 29)));
    assert!(matches!(parse_date("2024-02-30"), Err(DbError::Parse(_))));
    assert_eq!(
        parse_date("3.1.2025"),
        Err(DbError::Parse("Invalid date format: 3.1.2025".to_string()))
    );
}

#[test]
fn due_date_crosses_months_and_years() {
    assert_eq!(due_date_for(date(2024, 1, 31)), Some(date(2024, 3, 1)));
    assert_eq!(due_date_for(date(2023, 1, 31)), Some(date(2023, 3, 2)));
    assert_eq!(due_date_for(date(2024, 12, 15)), Some(date(2025, 1, 14)));
    assert_eq!(due_date_for(date(2024, 2, 30)), None);
    assert_eq!(due_date_for(date(262142, 12, 1)), Some(date(262142, 12, 31)));
    assert_eq!(due_date_for(date(262142, 12, 2)), None);
    assert_eq!(due_date_for(date(-262143, 1, 1)), Some(date(-262143, 1, 31)));
}
