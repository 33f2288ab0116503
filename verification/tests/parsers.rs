use chrono::NaiveDate;
use finance_cli::csv_import::{looks_like_date, parse_amount, parse_csv_content, parse_date};
use finance_cli::date::Date;
use finance_cli::detect::{detect_format_from_content, detect_institution, format_from_extension, FileFormat, Institution};
use finance_cli::error::{Error, ParseError};
use finance_cli::iif::{
    extract_field, extract_splits, extract_transaction_blocks, parse_iif_amount, parse_iif_content,
    parse_iif_date, parse_transaction_block,
};
use finance_cli::models::{Account, AccountType};
use finance_cli::money::Money;
use rust_decimal::Decimal;
use std::str::FromStr;

fn decimal(m: &Money) -> Decimal {
    let signed = if m.negative { -(m.units as i128) } else { m.units as i128 };
    Decimal::from_i128_with_scale(signed, m.scale)
}

fn naive(d: &Date) -> NaiveDate {
    NaiveDate::from_ymd_opt(d.year, d.month, d.day).unwrap()
}

fn csv_account() -> Account {
    Account::new("Test", "Test Bank", AccountType::Checking)
}

fn iif_account() -> Account {
    Account::new("Test Account", "QuickBooks", AccountType::Checking)
}

#[test]
fn test_parse_amount() {
    assert_eq!(decimal(&parse_amount("100.00").unwrap()), Decimal::from_str("100.00").unwrap());
    assert_eq!(decimal(&parse_amount("-50.00").unwrap()), Decimal::from_str("-50.00").unwrap());
    assert_eq!(decimal(&parse_amount("$1,234.56").unwrap()), Decimal::from_str("1234.56").unwrap());
    assert_eq!(decimal(&parse_amount("(100.00)").unwrap()), Decimal::from_str("-100.00").unwrap());
}

#[test]
fn test_parse_date() {
    let date = parse_date("01/15/2024", "%m/%d/%Y").unwrap();
    assert_eq!(naive(&date), NaiveDate::from_ymd_opt(2024, 1, 15).unwrap());

    let date = parse_date("2024-01-15", "%Y-%m-%d").unwrap();
    assert_eq!(naive(&date), NaiveDate::from_ymd_opt(2024, 1, 15).unwrap());
}

#[test]
fn test_parse_csv_content() {
    let csv = "Date,Amount,Description\n2024-01-15,-50.00,Test Purchase";
    let account = csv_account();
    let result = parse_csv_content(csv, &account, None).unwrap();

    assert_eq!(result.transactions.len(), 1);
    assert_eq!(result.transactions[0].description, "Test Purchase");
}

#[test]
fn test_looks_like_date() {
    assert!(looks_like_date("3/7/2026"));
    assert!(looks_like_date("01/15/2024"));
    assert!(looks_like_date("2024-01-15"));
    assert!(!looks_like_date("Chase Bank (Account ****2790)"));
    assert!(!looks_like_date("Individual Cash Account"));
    assert!(!looks_like_date(""));
    assert!(!looks_like_date("Transaction date"));
}

#[test]
fn test_skip_section_header_rows() {
    let csv = "Transaction date,Description,Type,Amount\n\
               3/12/2026,Citi Autopay,Withdrawal,-25.00\n\
               Chase Bank (Account ****2790),,,\n\
               3/11/2026,Paycheck,Deposit,869.00";
    let account = csv_account();
    let result = parse_csv_content(csv, &account, Some("sofi")).unwrap();

    assert_eq!(result.transactions.len(), 2, "separator row must be skipped");
    assert!(result.errors.is_empty(), "no errors expected: {:?}", result.errors);
}

#[test]
fn test_detect_format_csv() {
    let content = "Date,Amount,Description\n2024-01-15,-50.00,Test";
    assert_eq!(detect_format_from_content(content).unwrap(), FileFormat::Csv);
}

#[test]
fn test_detect_format_qfx() {
    let content = "OFXHEADER:100\nDATA:OFXSGML";
    assert_eq!(detect_format_from_content(content).unwrap(), FileFormat::Qfx);
}

#[test]
fn test_detect_institution_chase() {
    let content = "Details,Posting Date,Description,Amount,Type,Balance\nDEBIT,01/15/2024,AMAZON,-50.00,ACH,1000.00";
    assert_eq!(detect_institution(content), Institution::Chase);
}

#[test]
fn test_detect_wealthfront_cash() {
    let content = "Transaction date,Description,Type,Amount\n3/12/2026,Paycheck,Deposit,869.00";
    assert_eq!(detect_institution(content), Institution::WealthfrontCash);
}

#[test]
fn test_detect_no_false_positive_from_description() {
    let content = "Transaction date,Description,Type,Amount\n\
                   3/7/2026,Chase Bank (Account ****2790),Withdrawal,-3000.00\n\
                   3/6/2026,Nys Dol Ui Dd-Ui Dd,Deposit,869.00";
    assert_eq!(detect_institution(content), Institution::WealthfrontCash);
}

#[test]
fn test_extract_field() {
    let content = "!TRNS\n!DATE\t03/15/2024\n!AMOUNT\t-125.50\n!ENDTRNS";
    assert_eq!(extract_field(content, "DATE"), Some("03/15/2024".to_string()));
    assert_eq!(extract_field(content, "AMOUNT"), Some("-125.50".to_string()));
    assert_eq!(extract_field(content, "MISSING"), None);
}

#[test]
fn test_parse_iif_date() {
    let date = parse_iif_date("03/15/2024").unwrap();
    assert_eq!(date.to_iso_string(), "2024-03-15");

    let date = parse_iif_date("12/31/2025").unwrap();
    assert_eq!(date.to_iso_string(), "2025-12-31");

    assert!(parse_iif_date("15-03-2024").is_err());
    assert!(parse_iif_date("invalid").is_err());
}

#[test]
fn test_parse_iif_amount() {
    let amount = parse_iif_amount("-125.50").unwrap();
    assert_eq!(amount.to_decimal_string(), "-125.50");

    let amount = parse_iif_amount("1000.00").unwrap();
    assert_eq!(amount.to_decimal_string(), "1000");

    let amount = parse_iif_amount("$1,250.75").unwrap();
    assert_eq!(amount.to_decimal_string(), "1250.75");

    assert!(parse_iif_amount("invalid").is_err());
}

#[test]
fn test_extract_transaction_blocks() {
    let content = "!TRNS\tCHECK\n!DATE\t03/15/2024\n!AMOUNT\t-125.50\n!ENDTRNS\n!TRNS\tDEBIT\n!DATE\t03/20/2024\n!AMOUNT\t-50.00\n!ENDTRNS";

    let blocks = extract_transaction_blocks(content);
    assert_eq!(blocks.len(), 2);
    assert!(blocks[0].contains("!DATE\t03/15/2024"));
    assert!(blocks[1].contains("!DATE\t03/20/2024"));
}

#[test]
fn test_parse_simple_transaction() {
    let content = "!TRNS\tCHECK\n!TRNSID\tCHK001\n!DATE\t03/15/2024\n!ACCNT\tChecking Account\n!NAME\tOffice Max\n!AMOUNT\t-125.50\n!MEMO\tSupplies\n!DOCNUM\tCHK-5001\n!ENDTRNS";

    let account = iif_account();
    let tx = parse_transaction_block(content, &account).unwrap();

    assert_eq!(tx.transaction_date.to_iso_string(), "2024-03-15");
    assert_eq!(tx.amount.to_decimal_string(), "-125.50");
    assert!(tx.description.contains("Office Max"));
    assert!(tx.description.contains("Supplies"));
    assert_eq!(tx.reference_number, Some("CHK-5001".to_string()));
}

#[test]
fn test_parse_transaction_missing_date() {
    let content = "!TRNS\tCHECK\n!AMOUNT\t-125.50\n!NAME\tOffice Max\n!ENDTRNS";

    let account = iif_account();
    assert!(parse_transaction_block(content, &account).is_err());
}

#[test]
fn test_parse_transaction_missing_amount() {
    let content = "!TRNS\tCHECK\n!DATE\t03/15/2024\n!NAME\tOffice Max\n!ENDTRNS";

    let account = iif_account();
    assert!(parse_transaction_block(content, &account).is_err());
}

#[test]
fn test_extract_splits() {
    let content = "!TRNS\tDEBIT\n!DATE\t03/20/2024\n!AMOUNT\t-1000.00\n!SPLIT\n!SPLITACCNT\tExpenses:Office Supplies\n!SPLITAMT\t-600.00\n!SPLITNAME\tSupplies\n!ENDSPLIT\n!SPLIT\n!SPLITACCNT\tExpenses:Travel\n!SPLITAMT\t-400.00\n!SPLITNAME\tTravel\n!ENDSPLIT\n!ENDTRNS";

    let splits = extract_splits(content);
    assert_eq!(splits.len(), 2);
    assert_eq!(splits[0].account, "Expenses:Office Supplies");
    assert_eq!(splits[0].amount, "-600.00");
    assert_eq!(splits[0].name, Some("Supplies".to_string()));
    assert_eq!(splits[1].account, "Expenses:Travel");
}

#[test]
fn test_parse_iif_content_simple() {
    let content = "!TRNS\tCHECK\n!TRNSID\tCHK001\n!DATE\t03/15/2024\n!ACCNT\tChecking Account\n!NAME\tOffice Max\n!AMOUNT\t-125.50\n!MEMO\tSupplies\n!DOCNUM\tCHK-5001\n!ENDTRNS\n!TRNS\tCHECK\n!TRNSID\tCHK002\n!DATE\t03/16/2024\n!ACCNT\tChecking Account\n!NAME\tGas Station\n!AMOUNT\t-45.00\n!MEMO\tFuel\n!ENDTRNS";

    let account = iif_account();
    let result = parse_iif_content(content, &account).unwrap();

    assert_eq!(result.transactions.len(), 2);
    assert!(result.errors.is_empty());
    assert_eq!(result.transactions[0].description, "Office Max - Supplies");
    assert_eq!(result.transactions[1].description, "Gas Station - Fuel");
}

// ----- further cases -----

#[test]
fn parse_amount_rejects_text() {
    match parse_amount("abc") {
        Err(Error::Parse(ParseError::InvalidAmount(m))) => assert_eq!(m, "'abc'"),
        other => panic!("unexpected: {:?}", other),
    }
}

#[test]
fn parse_date_rejects_other_format() {
    match parse_date("2024-01-15", "%m/%d/%Y") {
        Err(Error::Parse(ParseError::InvalidDate(_))) => {}
        other => panic!("unexpected: {:?}", other),
    }
}

#[test]
fn transaction_block_errors_name_the_field() {
    let account = iif_account();
    match parse_transaction_block("!TRNS\tCHECK\n!AMOUNT\t-1.00\n!ENDTRNS", &account) {
        Err(Error::Parse(ParseError::MissingField(m))) => assert_eq!(m, "IIF transaction missing !DATE"),
        other => panic!("unexpected: {:?}", other),
    }
    match parse_transaction_block("!TRNS\tCHECK\n!DATE\t03/15/2024\n!AMOUNT\tten\n!ENDTRNS", &account) {
        Err(Error::Parse(ParseError::InvalidAmount(m))) => assert_eq!(m, "Invalid IIF amount: ten"),
        other => panic!("unexpected: {:?}", other),
    }
}

#[test]
fn detect_format_iif_and_unknown() {
    assert_eq!(detect_format_from_content("!TRNS\tTRNSID\n!ENDTRNS").unwrap(), FileFormat::Iif);
    assert_eq!(detect_format_from_content("hello world").unwrap(), FileFormat::Unknown);
    assert_eq!(detect_format_from_content("<OFX>").unwrap(), FileFormat::Qfx);
}

#[test]
fn csv_rows_that_fail_are_reported_by_line() {
    let csv = "Date,Amount,Description\n2024-01-15,abc,Bad Amount\n2024-01-16,-5.00,Good";
    let result = parse_csv_content(csv, &csv_account(), None).unwrap();
    assert_eq!(result.transactions.len(), 1);
    assert_eq!(result.errors.len(), 1);
    assert!(result.errors[0].starts_with("Line 2"));
}

#[test]
fn same_import_gives_same_hashes() {
    let csv = "Date,Amount,Description\n2024-01-15,-50.00,Test Purchase";
    let account = csv_account();
    let a = parse_csv_content(csv, &account, None).unwrap();
    let b = parse_csv_content(csv, &account, None).unwrap();
    assert_eq!(a.transactions[0].transaction_hash, b.transactions[0].transaction_hash);
    assert_eq!(a.transactions[0].transaction_hash.len(), 64);
}

#[test]
fn same_iif_import_gives_same_hashes() {
    let content = "!TRNS\tCHECK\n!DATE\t03/15/2024\n!NAME\tOffice Max\n!AMOUNT\t-125.50\n!ENDTRNS";
    let account = iif_account();
    let a = parse_iif_content(content, &account).unwrap();
    let b = parse_iif_content(content, &account).unwrap();
    assert_eq!(a.transactions.len(), 1);
    assert_eq!(a.transactions[0].transaction_hash, b.transactions[0].transaction_hash);
}

#[test]
fn formats_named_by_extension() {
    assert_eq!(format_from_extension("CSV"), Some(FileFormat::Csv));
    assert_eq!(format_from_extension("qfx"), Some(FileFormat::Qfx));
    assert_eq!(format_from_extension("Ofx"), Some(FileFormat::Ofx));
    assert_eq!(format_from_extension("iif"), Some(FileFormat::Iif));
    assert_eq!(format_from_extension("txt"), None);
}

#[test]
fn bank_named_only_in_a_description_selects_nothing() {
    let content = "Date,Amount,Description\n2024-01-15,-3000.00,Transfer to Chase Bank";
    assert_eq!(detect_institution(content), Institution::Unknown);
    let with_preamble = "Chase Bank Statement\nDate,Amount,Description\n2024-01-15,-5.00,Coffee";
    assert_eq!(detect_institution(with_preamble), Institution::Chase);
}

#[test]
fn only_the_first_ten_lines_are_read() {
    let mut c = String::new();
    for _ in 0..10 {
        c.push_str("Note,,\n");
    }
    let before = detect_institution(&c);
    let after = detect_institution(&format!("{}Chase Bank,,\n", c));
    assert_eq!(before, Institution::Unknown);
    assert_eq!(after, before);
}

#[test]
fn institution_keys_select_their_institution() {
    let csv = "Date,Amount,Description\n2024-01-15,-50.00,Test Purchase";
    let account = csv_account();
    for i in [
        Institution::Chase, Institution::BankOfAmerica, Institution::Wealthfront, Institution::WealthfrontCash,
        Institution::Ally, Institution::AmericanExpress, Institution::Discover, Institution::Citi,
        Institution::CapitalOne, Institution::SoFi,
    ] {
        let r = parse_csv_content(csv, &account, Some(i.as_str())).unwrap();
        assert_eq!(r.institution, Some(i.display_name().to_string()));
    }
    let r = parse_csv_content(csv, &account, Some("CHASE")).unwrap();
    assert_eq!(r.institution, Some("Chase".to_string()));
    let r = parse_csv_content(csv, &account, Some("nobank")).unwrap();
    assert_eq!(r.institution, Some("Unknown".to_string()));
    let r = parse_csv_content(csv, &account, Some("Capital_One")).unwrap();
    assert_eq!(r.institution, Some("Capital One".to_string()));
    let amex = "Date,Description,Amount\n01/15/2024,Coffee,4.50\n";
    let hinted = parse_csv_content(amex, &account, Some(Institution::Unknown.as_str())).unwrap();
    let plain = parse_csv_content(amex, &account, None).unwrap();
    assert_eq!(hinted.institution, plain.institution);
    assert_eq!(hinted.transactions.len(), plain.transactions.len());
}
