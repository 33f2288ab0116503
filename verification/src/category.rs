//! Category model for transaction classification, and the default
//! catalogue of categories (income, Schedule C, A and E lines, personal).

use vstd::prelude::*;
use crate::ids::{EntityMetadata, new_uuid};

verus! {

/// Type of category.
#[derive(Clone, Copy, Debug, PartialEq, Eq, Structural)]
pub enum CategoryType {
    Income,
    Expense,
    Personal,
}

/// A category for classifying transactions.
#[derive(Debug)]
pub struct Category {
    /// Unique identifier
    pub id: u128,
    /// Parent category for hierarchy (optional)
    pub parent_id: Option<u128>,
    /// Display name
    pub name: String,
    /// Description
    pub description: Option<String>,
    /// Type of category (income, expense, personal)
    pub category_type: CategoryType,
    /// Default Schedule C line mapping
    pub schedule_c_line: Option<String>,
    /// Whether expenses in this category are tax deductible
    pub is_tax_deductible: bool,
    /// Whether this category is active
    pub is_active: bool,
    /// Display order within parent
    pub sort_order: i32,
    /// Entity metadata
    pub metadata: EntityMetadata,
}

impl Category {
    /// Create a new category: active, top-level, not tax deductible, sort
    /// order 100, with a fresh id.
    pub fn new(name: &str, category_type: CategoryType) -> (r: Category)
        ensures
            r.name@ == name@,
            r.category_type == category_type,
            r.parent_id is None,
            r.description is None,
            r.schedule_c_line is None,
            !r.is_tax_deductible,
            r.is_active,
            r.sort_order == 100,
            r.metadata.created_at == r.metadata.updated_at,
    {
        Category {
            id: new_uuid(),
            parent_id: None,
            name: name.to_owned(),
            description: None,
            category_type,
            schedule_c_line: None,
            is_tax_deductible: false,
            is_active: true,
            sort_order: 100,
            metadata: EntityMetadata::new(),
        }
    }

    /// Create a new expense category.
    pub fn expense(name: &str) -> (r: Category)
        ensures
            r.name@ == name@,
            r.category_type == CategoryType::Expense,
            r.parent_id is None,
            r.description is None,
            r.schedule_c_line is None,
            !r.is_tax_deductible,
            r.is_active,
            r.sort_order == 100,
    {
        Self::new(name, CategoryType::Expense)
    }

    /// Create a new income category.
    pub fn income(name: &str) -> (r: Category)
        ensures
            r.name@ == name@,
            r.category_type == CategoryType::Income,
            r.parent_id is None,
            r.description is None,
            r.schedule_c_line is None,
            !r.is_tax_deductible,
            r.is_active,
            r.sort_order == 100,
    {
        Self::new(name, CategoryType::Income)
    }

    /// Create a new personal category.
    pub fn personal(name: &str) -> (r: Category)
        ensures
            r.name@ == name@,
            r.category_type == CategoryType::Personal,
            r.parent_id is None,
            r.description is None,
            r.schedule_c_line is None,
            !r.is_tax_deductible,
            r.is_active,
            r.sort_order == 100,
    {
        Self::new(name, CategoryType::Personal)
    }

    /// Set the parent category.
    pub fn with_parent(self, parent_id: u128) -> (r: Category)
        ensures
            r == (Category { parent_id: Some(parent_id), ..self }),
    {
        Category { parent_id: Some(parent_id), ..self }
    }

    /// Set the Schedule C line mapping; such a category is tax deductible.
    pub fn with_schedule_c(self, line: &str) -> (r: Category)
        ensures
            r.schedule_c_line matches Some(l) && l@ == line@,
            r.is_tax_deductible,
            r.id == self.id,
            r.parent_id == self.parent_id,
            r.name == self.name,
            r.description == self.description,
            r.category_type == self.category_type,
            r.is_active == self.is_active,
            r.sort_order == self.sort_order,
            r.metadata == self.metadata,
    {
        Category { schedule_c_line: Some(line.to_owned()), is_tax_deductible: true, ..self }
    }

    /// Set the description.
    pub fn with_description(self, desc: &str) -> (r: Category)
        ensures
            r.description matches Some(d) && d@ == desc@,
            r.id == self.id,
            r.parent_id == self.parent_id,
            r.name == self.name,
            r.schedule_c_line == self.schedule_c_line,
            r.is_tax_deductible == self.is_tax_deductible,
            r.category_type == self.category_type,
            r.is_active == self.is_active,
            r.sort_order == self.sort_order,
            r.metadata == self.metadata,
    {
        Category { description: Some(desc.to_owned()), ..self }
    }

    /// Set the sort order.
    pub fn with_sort_order(self, order: i32) -> (r: Category)
        ensures
            r == (Category { sort_order: order, ..self }),
    {
        Category { sort_order: order, ..self }
    }

    /// Check if this is a top-level category.
    pub fn is_root(&self) -> (r: bool)
        ensures
            r == self.parent_id is None,
    {
        self.parent_id.is_none()
    }

    /// Deactivate the category.
    pub fn deactivate(&mut self)
        ensures
            !final(self).is_active,
            final(self).id == old(self).id,
            final(self).parent_id == old(self).parent_id,
            final(self).name == old(self).name,
            final(self).description == old(self).description,
            final(self).category_type == old(self).category_type,
            final(self).schedule_c_line == old(self).schedule_c_line,
            final(self).is_tax_deductible == old(self).is_tax_deductible,
            final(self).sort_order == old(self).sort_order,
            final(self).metadata.created_at == old(self).metadata.created_at,
    {
        self.is_active = false;
        self.metadata.touch();
    }

    /// Reactivate the category.
    pub fn activate(&mut self)
        ensures
            final(self).is_active,
            final(self).id == old(self).id,
            final(self).parent_id == old(self).parent_id,
            final(self).name == old(self).name,
            final(self).description == old(self).description,
            final(self).category_type == old(self).category_type,
            final(self).schedule_c_line == old(self).schedule_c_line,
            final(self).is_tax_deductible == old(self).is_tax_deductible,
            final(self).sort_order == old(self).sort_order,
            final(self).metadata.created_at == old(self).metadata.created_at,
    {
        self.is_active = true;
        self.metadata.touch();
    }

    /// The identifier.
    pub fn id(&self) -> (r: u128)
        ensures
            r == self.id,
    {
        self.id
    }

    /// Never changed since creation: both times are equal.
    pub fn is_new(&self) -> (r: bool)
        ensures
            r == (self.metadata.created_at == self.metadata.updated_at),
    {
        self.metadata.created_at == self.metadata.updated_at
    }
}

/// One row of the default catalogue.
pub struct DefaultSpec {
    pub name: Seq<char>,
    pub category_type: CategoryType,
    pub schedule_c_line: Option<Seq<char>>,
    pub description: Seq<char>,
    pub sort_order: i32,
}

struct DefaultEntry {
    name: &'static str,
    category_type: CategoryType,
    schedule_c_line: Option<&'static str>,
    description: &'static str,
    sort_order: i32,
}

spec fn entry_view(e: DefaultEntry) -> DefaultSpec {
    DefaultSpec {
        name: e.name@,
        category_type: e.category_type,
        schedule_c_line: match e.schedule_c_line {
            Some(l) => Some(l@),
            None => None,
        },
        description: e.description@,
        sort_order: e.sort_order,
    }
}

/// Number of rows of the default catalogue: the Schedule C, A and E
/// categories and the personal ones.
pub open spec fn default_count() -> int {
    44
}

/// Rows of the default catalogue, in insertion order.
#[verifier::opaque]
pub open spec fn default_spec(i: int) -> DefaultSpec {
    if i == 0 {
        DefaultSpec { name: "Business Income"@, category_type: CategoryType::Income, schedule_c_line: None, description: "Income from business activities"@, sort_order: 1 }
    } else if i == 1 {
        DefaultSpec { name: "Freelance Income"@, category_type: CategoryType::Income, schedule_c_line: None, description: "Freelance and consulting income"@, sort_order: 2 }
    } else if i == 2 {
        DefaultSpec { name: "Other Income"@, category_type: CategoryType::Income, schedule_c_line: None, description: "Other business income"@, sort_order: 3 }
    } else if i == 3 {
        DefaultSpec { name: "Advertising"@, category_type: CategoryType::Expense, schedule_c_line: Some("L8"@), description: "Advertising and marketing expenses"@, sort_order: 10 }
    } else if i == 4 {
        DefaultSpec { name: "Car & Truck"@, category_type: CategoryType::Expense, schedule_c_line: Some("L9"@), description: "Vehicle expenses for business use"@, sort_order: 11 }
    } else if i == 5 {
        DefaultSpec { name: "Commissions & Fees"@, category_type: CategoryType::Expense, schedule_c_line: Some("L10"@), description: "Commissions and fees paid"@, sort_order: 12 }
    } else if i == 6 {
        DefaultSpec { name: "Contract Labor"@, category_type: CategoryType::Expense, schedule_c_line: Some("L11"@), description: "Payments to contractors"@, sort_order: 13 }
    } else if i == 7 {
        DefaultSpec { name: "Insurance"@, category_type: CategoryType::Expense, schedule_c_line: Some("L15"@), description: "Business insurance premiums"@, sort_order: 14 }
    } else if i == 8 {
        DefaultSpec { name: "Legal & Professional"@, category_type: CategoryType::Expense, schedule_c_line: Some("L17"@), description: "Legal and professional services"@, sort_order: 15 }
    } else if i == 9 {
        DefaultSpec { name: "Office Expense"@, category_type: CategoryType::Expense, schedule_c_line: Some("L18"@), description: "Office supplies and expenses"@, sort_order: 16 }
    } else if i == 10 {
        DefaultSpec { name: "Rent or Lease"@, category_type: CategoryType::Expense, schedule_c_line: Some("L20b"@), description: "Rent for business property"@, sort_order: 17 }
    } else if i == 11 {
        DefaultSpec { name: "Supplies"@, category_type: CategoryType::Expense, schedule_c_line: Some("L22"@), description: "Supplies used in business"@, sort_order: 18 }
    } else if i == 12 {
        DefaultSpec { name: "Travel"@, category_type: CategoryType::Expense, schedule_c_line: Some("L24a"@), description: "Business travel expenses"@, sort_order: 19 }
    } else if i == 13 {
        DefaultSpec { name: "Meals"@, category_type: CategoryType::Expense, schedule_c_line: Some("L24b"@), description: "Business meals (50% deductible)"@, sort_order: 20 }
    } else if i == 14 {
        DefaultSpec { name: "Utilities"@, category_type: CategoryType::Expense, schedule_c_line: Some("L25"@), description: "Utilities for business property"@, sort_order: 21 }
    } else if i == 15 {
        DefaultSpec { name: "Other Expenses"@, category_type: CategoryType::Expense, schedule_c_line: Some("L27a"@), description: "Other deductible business expenses"@, sort_order: 22 }
    } else if i == 16 {
        DefaultSpec { name: "Medical & Dental Expenses"@, category_type: CategoryType::Expense, schedule_c_line: Some("A-1"@), description: "Medical, dental, vision, prescriptions, health insurance premiums"@, sort_order: 30 }
    } else if i == 17 {
        DefaultSpec { name: "State & Local Income Tax"@, category_type: CategoryType::Expense, schedule_c_line: Some("A-5a"@), description: "State and local income tax payments, estimated tax payments"@, sort_order: 31 }
    } else if i == 18 {
        DefaultSpec { name: "Personal Property Tax"@, category_type: CategoryType::Expense, schedule_c_line: Some("A-5b"@), description: "Vehicle registration fees, personal property taxes"@, sort_order: 32 }
    } else if i == 19 {
        DefaultSpec { name: "Real Estate Tax"@, category_type: CategoryType::Expense, schedule_c_line: Some("A-5c"@), description: "Property taxes on primary residence and other personal real estate"@, sort_order: 33 }
    } else if i == 20 {
        DefaultSpec { name: "Home Mortgage Interest"@, category_type: CategoryType::Expense, schedule_c_line: Some("A-8a"@), description: "Mortgage interest paid to financial institutions (Form 1098)"@, sort_order: 34 }
    } else if i == 21 {
        DefaultSpec { name: "Mortgage Insurance Premiums"@, category_type: CategoryType::Expense, schedule_c_line: Some("A-10"@), description: "PMI or MIP premiums on qualified residence"@, sort_order: 35 }
    } else if i == 22 {
        DefaultSpec { name: "Charitable Donations - Cash"@, category_type: CategoryType::Expense, schedule_c_line: Some("A-12"@), description: "Cash or check donations to qualified organizations"@, sort_order: 36 }
    } else if i == 23 {
        DefaultSpec { name: "Charitable Donations - Non-Cash"@, category_type: CategoryType::Expense, schedule_c_line: Some("A-13"@), description: "Donated goods, clothing, vehicles to qualified organizations"@, sort_order: 37 }
    } else if i == 24 {
        DefaultSpec { name: "Casualty & Theft Losses"@, category_type: CategoryType::Expense, schedule_c_line: Some("A-15"@), description: "Federally declared disaster area losses only"@, sort_order: 38 }
    } else if i == 25 {
        DefaultSpec { name: "Other Itemized Deductions"@, category_type: CategoryType::Expense, schedule_c_line: Some("A-16"@), description: "Gambling losses, impairment-related work expenses, estate tax on IRD"@, sort_order: 39 }
    } else if i == 26 {
        DefaultSpec { name: "Rental Income"@, category_type: CategoryType::Income, schedule_c_line: Some("E-3"@), description: "Rents received from tenants"@, sort_order: 40 }
    } else if i == 27 {
        DefaultSpec { name: "Rental - Advertising"@, category_type: CategoryType::Expense, schedule_c_line: Some("E-5"@), description: "Advertising for rental property vacancies"@, sort_order: 41 }
    } else if i == 28 {
        DefaultSpec { name: "Rental - Auto & Travel"@, category_type: CategoryType::Expense, schedule_c_line: Some("E-6"@), description: "Travel to rental properties for maintenance and management"@, sort_order: 42 }
    } else if i == 29 {
        DefaultSpec { name: "Rental - Cleaning & Maintenance"@, category_type: CategoryType::Expense, schedule_c_line: Some("E-7"@), description: "Cleaning, landscaping, pest control, general maintenance"@, sort_order: 43 }
    } else if i == 30 {
        DefaultSpec { name: "Rental - Commissions"@, category_type: CategoryType::Expense, schedule_c_line: Some("E-8"@), description: "Property management fees, leasing commissions"@, sort_order: 44 }
    } else if i == 31 {
        DefaultSpec { name: "Rental - Insurance"@, category_type: CategoryType::Expense, schedule_c_line: Some("E-9"@), description: "Landlord insurance, liability, flood, umbrella policies"@, sort_order: 45 }
    } else if i == 32 {
        DefaultSpec { name: "Rental - Legal & Professional"@, category_type: CategoryType::Expense, schedule_c_line: Some("E-10"@), description: "Attorney fees, CPA fees, eviction costs for rental properties"@, sort_order: 46 }
    } else if i == 33 {
        DefaultSpec { name: "Rental - Management Fees"@, category_type: CategoryType::Expense, schedule_c_line: Some("E-11"@), description: "Property management company fees"@, sort_order: 47 }
    } else if i == 34 {
        DefaultSpec { name: "Rental - Mortgage Interest"@, category_type: CategoryType::Expense, schedule_c_line: Some("E-12"@), description: "Mortgage interest on rental properties"@, sort_order: 48 }
    } else if i == 35 {
        DefaultSpec { name: "Rental - Other Interest"@, category_type: CategoryType::Expense, schedule_c_line: Some("E-13"@), description: "Other interest expenses related to rental properties"@, sort_order: 49 }
    } else if i == 36 {
        DefaultSpec { name: "Rental - Repairs"@, category_type: CategoryType::Expense, schedule_c_line: Some("E-14"@), description: "Repairs to rental properties (not improvements)"@, sort_order: 50 }
    } else if i == 37 {
        DefaultSpec { name: "Rental - Supplies"@, category_type: CategoryType::Expense, schedule_c_line: Some("E-15"@), description: "Supplies used for rental property maintenance"@, sort_order: 51 }
    } else if i == 38 {
        DefaultSpec { name: "Rental - Taxes"@, category_type: CategoryType::Expense, schedule_c_line: Some("E-16"@), description: "Property taxes on rental properties"@, sort_order: 52 }
    } else if i == 39 {
        DefaultSpec { name: "Rental - Utilities"@, category_type: CategoryType::Expense, schedule_c_line: Some("E-17"@), description: "Utilities paid by landlord for rental properties"@, sort_order: 53 }
    } else if i == 40 {
        DefaultSpec { name: "Rental - Depreciation"@, category_type: CategoryType::Expense, schedule_c_line: Some("E-18"@), description: "Depreciation of rental property and improvements"@, sort_order: 54 }
    } else if i == 41 {
        DefaultSpec { name: "Rental - Other Expenses"@, category_type: CategoryType::Expense, schedule_c_line: Some("E-19"@), description: "Other rental property expenses not listed above"@, sort_order: 55 }
    } else if i == 42 {
        DefaultSpec { name: "Personal"@, category_type: CategoryType::Personal, schedule_c_line: None, description: "Personal non-business expenses"@, sort_order: 80 }
    } else {
        DefaultSpec { name: "Transfer"@, category_type: CategoryType::Personal, schedule_c_line: None, description: "Transfers between accounts"@, sort_order: 81 }
    }
}

/// The row index of a default category name: each row is told apart by
/// its length and a few of its characters.
#[verifier::opaque]
spec fn default_index_of(s: Seq<char>) -> int {
    if s.len() == 15 && s[0] == 'B' {
        0
    } else if s.len() == 16 && s[0] == 'F' {
        1
    } else if s.len() == 12 && s[0] == 'O' {
        2
    } else if s.len() == 11 && s[0] == 'A' {
        3
    } else if s.len() == 11 && s[0] == 'C' {
        4
    } else if s.len() == 18 && s[0] == 'C' {
        5
    } else if s.len() == 14 && s[0] == 'C' {
        6
    } else if s.len() == 9 && s[0] == 'I' {
        7
    } else if s.len() == 20 && s[0] == 'L' {
        8
    } else if s.len() == 14 && s[1] == 'f' {
        9
    } else if s.len() == 13 && s[5] == 'o' {
        10
    } else if s.len() == 8 && s[0] == 'S' {
        11
    } else if s.len() == 6 && s[0] == 'T' {
        12
    } else if s.len() == 5 && s[0] == 'M' {
        13
    } else if s.len() == 9 && s[0] == 'U' {
        14
    } else if s.len() == 14 && s[1] == 't' {
        15
    } else if s.len() == 25 && s[0] == 'M' {
        16
    } else if s.len() == 24 && s[0] == 'S' {
        17
    } else if s.len() == 21 && s[0] == 'P' {
        18
    } else if s.len() == 15 && s[0] == 'R' {
        19
    } else if s.len() == 22 && s[0] == 'H' {
        20
    } else if s.len() == 27 && s[0] == 'M' {
        21
    } else if s.len() == 27 && s[0] == 'C' {
        22
    } else if s.len() == 31 && s[0] == 'C' {
        23
    } else if s.len() == 23 && s[0] == 'C' {
        24
    } else if s.len() == 25 && s[0] == 'O' {
        25
    } else if s.len() == 13 && s[4] == 'a' {
        26
    } else if s.len() == 20 && s[9] == 'A' {
        27
    } else if s.len() == 22 && s[0] == 'R' {
        28
    } else if s.len() == 31 && s[0] == 'R' {
        29
    } else if s.len() == 20 && s[9] == 'C' {
        30
    } else if s.len() == 18 && s[9] == 'I' {
        31
    } else if s.len() == 29 {
        32
    } else if s.len() == 24 && s[0] == 'R' {
        33
    } else if s.len() == 26 {
        34
    } else if s.len() == 23 && s[15] == 'I' {
        35
    } else if s.len() == 16 && s[0] == 'R' {
        36
    } else if s.len() == 17 && s[0] == 'R' {
        37
    } else if s.len() == 14 && s[0] == 'R' {
        38
    } else if s.len() == 18 && s[9] == 'U' {
        39
    } else if s.len() == 21 && s[0] == 'R' {
        40
    } else if s.len() == 23 && s[15] == 'E' {
        41
    } else if s.len() == 8 && s[0] == 'P' {
        42
    } else if s.len() == 8 && s[0] == 'T' {
        43
    } else {
        -1
    }
}

fn default_entry(i: usize) -> (r: DefaultEntry)
    requires
        i < 44,
    ensures
        entry_view(r) == default_spec(i as int),
        default_index_of(r.name@) == i,
{
    reveal(default_spec);
    reveal(default_index_of);
    match i {
        0 => {
            proof {
                reveal_strlit("Business Income");
            }
            DefaultEntry { name: "Business Income", category_type: CategoryType::Income, schedule_c_line: None, description: "Income from business activities", sort_order: 1 }
        }
        1 => {
            proof {
                reveal_strlit("Freelance Income");
            }
            DefaultEntry { name: "Freelance Income", category_type: CategoryType::Income, schedule_c_line: None, description: "Freelance and consulting income", sort_order: 2 }
        }
        2 => {
            proof {
                reveal_strlit("Other Income");
            }
            DefaultEntry { name: "Other Income", category_type: CategoryType::Income, schedule_c_line: None, description: "Other business income", sort_order: 3 }
        }
        3 => {
            proof {
                reveal_strlit("Advertising");
            }
            DefaultEntry { name: "Advertising", category_type: CategoryType::Expense, schedule_c_line: Some("L8"), description: "Advertising and marketing expenses", sort_order: 10 }
        }
        4 => {
            proof {
                reveal_strlit("Car & Truck");
            }
            DefaultEntry { name: "Car & Truck", category_type: CategoryType::Expense, schedule_c_line: Some("L9"), description: "Vehicle expenses for business use", sort_order: 11 }
        }
        5 => {
            proof {
                reveal_strlit("Commissions & Fees");
            }
            DefaultEntry { name: "Commissions & Fees", category_type: CategoryType::Expense, schedule_c_line: Some("L10"), description: "Commissions and fees paid", sort_order: 12 }
        }
        6 => {
            proof {
                reveal_strlit("Contract Labor");
            }
            DefaultEntry { name: "Contract Labor", category_type: CategoryType::Expense, schedule_c_line: Some("L11"), description: "Payments to contractors", sort_order: 13 }
        }
        7 => {
            proof {
                reveal_strlit("Insurance");
            }
            DefaultEntry { name: "Insurance", category_type: CategoryType::Expense, schedule_c_line: Some("L15"), description: "Business insurance premiums", sort_order: 14 }
        }
        8 => {
            proof {
                reveal_strlit("Legal & Professional");
            }
            DefaultEntry { name: "Legal & Professional", category_type: CategoryType::Expense, schedule_c_line: Some("L17"), description: "Legal and professional services", sort_order: 15 }
        }
        9 => {
            proof {
                reveal_strlit("Office Expense");
            }
            DefaultEntry { name: "Office Expense", category_type: CategoryType::Expense, schedule_c_line: Some("L18"), description: "Office supplies and expenses", sort_order: 16 }
        }
        10 => {
            proof {
                reveal_strlit("Rent or Lease");
            }
            DefaultEntry { name: "Rent or Lease", category_type: CategoryType::Expense, schedule_c_line: Some("L20b"), description: "Rent for business property", sort_order: 17 }
        }
        11 => {
            proof {
                reveal_strlit("Supplies");
            }
            DefaultEntry { name: "Supplies", category_type: CategoryType::Expense, schedule_c_line: Some("L22"), description: "Supplies used in business", sort_order: 18 }
        }
        12 => {
            proof {
                reveal_strlit("Travel");
            }
            DefaultEntry { name: "Travel", category_type: CategoryType::Expense, schedule_c_line: Some("L24a"), description: "Business travel expenses", sort_order: 19 }
        }
        13 => {
            proof {
                reveal_strlit("Meals");
            }
            DefaultEntry { name: "Meals", category_type: CategoryType::Expense, schedule_c_line: Some("L24b"), description: "Business meals (50% deductible)", sort_order: 20 }
        }
        14 => {
            proof {
                reveal_strlit("Utilities");
            }
            DefaultEntry { name: "Utilities", category_type: CategoryType::Expense, schedule_c_line: Some("L25"), description: "Utilities for business property", sort_order: 21 }
        }
        15 => {
            proof {
                reveal_strlit("Other Expenses");
            }
            DefaultEntry { name: "Other Expenses", category_type: CategoryType::Expense, schedule_c_line: Some("L27a"), description: "Other deductible business expenses", sort_order: 22 }
        }
        16 => {
            proof {
                reveal_strlit("Medical & Dental Expenses");
            }
            DefaultEntry { name: "Medical & Dental Expenses", category_type: CategoryType::Expense, schedule_c_line: Some("A-1"), description: "Medical, dental, vision, prescriptions, health insurance premiums", sort_order: 30 }
        }
        17 => {
            proof {
                reveal_strlit("State & Local Income Tax");
            }
            DefaultEntry { name: "State & Local Income Tax", category_type: CategoryType::Expense, schedule_c_line: Some("A-5a"), description: "State and local income tax payments, estimated tax payments", sort_order: 31 }
        }
        18 => {
            proof {
                reveal_strlit("Personal Property Tax");
            }
            DefaultEntry { name: "Personal Property Tax", category_type: CategoryType::Expense, schedule_c_line: Some("A-5b"), description: "Vehicle registration fees, personal property taxes", sort_order: 32 }
        }
        19 => {
            proof {
                reveal_strlit("Real Estate Tax");
            }
            DefaultEntry { name: "Real Estate Tax", category_type: CategoryType::Expense, schedule_c_line: Some("A-5c"), description: "Property taxes on primary residence and other personal real estate", sort_order: 33 }
        }
        20 => {
            proof {
                reveal_strlit("Home Mortgage Interest");
            }
            DefaultEntry { name: "Home Mortgage Interest", category_type: CategoryType::Expense, schedule_c_line: Some("A-8a"), description: "Mortgage interest paid to financial institutions (Form 1098)", sort_order: 34 }
        }
        21 => {
            proof {
                reveal_strlit("Mortgage Insurance Premiums");
            }
            DefaultEntry { name: "Mortgage Insurance Premiums", category_type: CategoryType::Expense, schedule_c_line: Some("A-10"), description: "PMI or MIP premiums on qualified residence", sort_order: 35 }
        }
        22 => {
            proof {
                reveal_strlit("Charitable Donations - Cash");
            }
            DefaultEntry { name: "Charitable Donations - Cash", category_type: CategoryType::Expense, schedule_c_line: Some("A-12"), description: "Cash or check donations to qualified organizations", sort_order: 36 }
        }
        23 => {
            proof {
                reveal_strlit("Charitable Donations - Non-Cash");
            }
            DefaultEntry { name: "Charitable Donations - Non-Cash", category_type: CategoryType::Expense, schedule_c_line: Some("A-13"), description: "Donated goods, clothing, vehicles to qualified organizations", sort_order: 37 }
        }
        24 => {
            proof {
                reveal_strlit("Casualty & Theft Losses");
            }
            DefaultEntry { name: "Casualty & Theft Losses", category_type: CategoryType::Expense, schedule_c_line: Some("A-15"), description: "Federally declared disaster area losses only", sort_order: 38 }
        }
        25 => {
            proof {
                reveal_strlit("Other Itemized Deductions");
            }
            DefaultEntry { name: "Other Itemized Deductions", category_type: CategoryType::Expense, schedule_c_line: Some("A-16"), description: "Gambling losses, impairment-related work expenses, estate tax on IRD", sort_order: 39 }
        }
        26 => {
            proof {
                reveal_strlit("Rental Income");
            }
            DefaultEntry { name: "Rental Income", category_type: CategoryType::Income, schedule_c_line: Some("E-3"), description: "Rents received from tenants", sort_order: 40 }
        }
        27 => {
            proof {
                reveal_strlit("Rental - Advertising");
            }
            DefaultEntry { name: "Rental - Advertising", category_type: CategoryType::Expense, schedule_c_line: Some("E-5"), description: "Advertising for rental property vacancies", sort_order: 41 }
        }
        28 => {
            proof {
                reveal_strlit("Rental - Auto & Travel");
            }
            DefaultEntry { name: "Rental - Auto & Travel", category_type: CategoryType::Expense, schedule_c_line: Some("E-6"), description: "Travel to rental properties for maintenance and management", sort_order: 42 }
        }
        29 => {
            proof {
                reveal_strlit("Rental - Cleaning & Maintenance");
            }
            DefaultEntry { name: "Rental - Cleaning & Maintenance", category_type: CategoryType::Expense, schedule_c_line: Some("E-7"), description: "Cleaning, landscaping, pest control, general maintenance", sort_order: 43 }
        }
        30 => {
            proof {
                reveal_strlit("Rental - Commissions");
            }
            DefaultEntry { name: "Rental - Commissions", category_type: CategoryType::Expense, schedule_c_line: Some("E-8"), description: "Property management fees, leasing commissions", sort_order: 44 }
        }
        31 => {
            proof {
                reveal_strlit("Rental - Insurance");
            }
            DefaultEntry { name: "Rental - Insurance", category_type: CategoryType::Expense, schedule_c_line: Some("E-9"), description: "Landlord insurance, liability, flood, umbrella policies", sort_order: 45 }
        }
        32 => {
            proof {
                reveal_strlit("Rental - Legal & Professional");
            }
            DefaultEntry { name: "Rental - Legal & Professional", category_type: CategoryType::Expense, schedule_c_line: Some("E-10"), description: "Attorney fees, CPA fees, eviction costs for rental properties", sort_order: 46 }
        }
        33 => {
            proof {
                reveal_strlit("Rental - Management Fees");
            }
            DefaultEntry { name: "Rental - Management Fees", category_type: CategoryType::Expense, schedule_c_line: Some("E-11"), description: "Property management company fees", sort_order: 47 }
        }
        34 => {
            proof {
                reveal_strlit("Rental - Mortgage Interest");
            }
            DefaultEntry { name: "Rental - Mortgage Interest", category_type: CategoryType::Expense, schedule_c_line: Some("E-12"), description: "Mortgage interest on rental properties", sort_order: 48 }
        }
        35 => {
            proof {
                reveal_strlit("Rental - Other Interest");
            }
            DefaultEntry { name: "Rental - Other Interest", category_type: CategoryType::Expense, schedule_c_line: Some("E-13"), description: "Other interest expenses related to rental properties", sort_order: 49 }
        }
        36 => {
            proof {
                reveal_strlit("Rental - Repairs");
            }
            DefaultEntry { name: "Rental - Repairs", category_type: CategoryType::Expense, schedule_c_line: Some("E-14"), description: "Repairs to rental properties (not improvements)", sort_order: 50 }
        }
        37 => {
            proof {
                reveal_strlit("Rental - Supplies");
            }
            DefaultEntry { name: "Rental - Supplies", category_type: CategoryType::Expense, schedule_c_line: Some("E-15"), description: "Supplies used for rental property maintenance", sort_order: 51 }
        }
        38 => {
            proof {
                reveal_strlit("Rental - Taxes");
            }
            DefaultEntry { name: "Rental - Taxes", category_type: CategoryType::Expense, schedule_c_line: Some("E-16"), description: "Property taxes on rental properties", sort_order: 52 }
        }
        39 => {
            proof {
                reveal_strlit("Rental - Utilities");
            }
            DefaultEntry { name: "Rental - Utilities", category_type: CategoryType::Expense, schedule_c_line: Some("E-17"), description: "Utilities paid by landlord for rental properties", sort_order: 53 }
        }
        40 => {
            proof {
                reveal_strlit("Rental - Depreciation");
            }
            DefaultEntry { name: "Rental - Depreciation", category_type: CategoryType::Expense, schedule_c_line: Some("E-18"), description: "Depreciation of rental property and improvements", sort_order: 54 }
        }
        41 => {
            proof {
                reveal_strlit("Rental - Other Expenses");
            }
            DefaultEntry { name: "Rental - Other Expenses", category_type: CategoryType::Expense, schedule_c_line: Some("E-19"), description: "Other rental property expenses not listed above", sort_order: 55 }
        }
        42 => {
            proof {
                reveal_strlit("Personal");
            }
            DefaultEntry { name: "Personal", category_type: CategoryType::Personal, schedule_c_line: None, description: "Personal non-business expenses", sort_order: 80 }
        }
        _ => {
            proof {
                reveal_strlit("Transfer");
            }
            DefaultEntry { name: "Transfer", category_type: CategoryType::Personal, schedule_c_line: None, description: "Transfers between accounts", sort_order: 81 }
        }
    }
}

/// `c` was built from catalogue row `e`.
pub open spec fn built_from_row(c: Category, e: DefaultSpec) -> bool {
    &&& c.name@ == e.name
    &&& c.category_type == e.category_type
    &&& crate::models::opt_view(c.schedule_c_line) == e.schedule_c_line
    &&& c.description matches Some(d) && d@ == e.description
    &&& c.sort_order == e.sort_order
    &&& c.is_tax_deductible == e.schedule_c_line is Some
    &&& c.is_active
}

/// Default categories for initial setup: the Schedule C categories with
/// the business income ones, the Schedule A and Schedule E categories, and
/// the personal ones, in insertion order. None of them has a parent.
pub fn default_categories() -> (r: Vec<Category>)
    ensures
        r@.len() == default_count(),
        forall|i: int| 0 <= i < default_count() ==> built_from_row(#[trigger] r@[i], default_spec(i)),
        forall|i: int| 0 <= i < r@.len() ==> (#[trigger] r@[i]).parent_id is None,
        // names are unique
        forall|i: int, j: int|
            0 <= i < r@.len() && 0 <= j < r@.len() && i != j ==> (#[trigger] r@[i]).name@
                != (#[trigger] r@[j]).name@,
        // a category with a tax-schedule line is tax deductible
        forall|i: int|
            0 <= i < r@.len() && (#[trigger] r@[i]).schedule_c_line is Some ==> r@[i].is_tax_deductible,
{
    let mut cats: Vec<Category> = Vec::new();
    let mut i: usize = 0;
    while i < 44
        invariant
            i <= 44,
            cats@.len() == i,
            forall|k: int| 0 <= k < i ==> built_from_row(#[trigger] cats@[k], default_spec(k)),
            forall|k: int| 0 <= k < i ==> default_index_of((#[trigger] cats@[k]).name@) == k,
            forall|k: int| 0 <= k < i ==> (#[trigger] cats@[k]).parent_id is None,
        decreases 44 - i,
    {
        let e = default_entry(i);
        let mut c = Category::new(e.name, e.category_type).with_description(e.description).with_sort_order(
            e.sort_order,
        );
        if let Some(line) = e.schedule_c_line {
            c = c.with_schedule_c(line);
        }
        cats.push(c);
        i += 1;
    }
    proof {
        assert forall|a: int, b: int|
            0 <= a < cats@.len() && 0 <= b < cats@.len() && a != b implies (#[trigger] cats@[a]).name@
                != (#[trigger] cats@[b]).name@ by {
            assert(default_index_of(cats@[a].name@) == a);
            assert(default_index_of(cats@[b].name@) == b);
        }
    }
    cats
}

} // verus!
