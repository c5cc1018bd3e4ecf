use vstd::prelude::*;
use crate::store::{Bill, BillManager, BillView};
use crate::text::{amount_string, amount_text, decimal, decimal_string, index_value, parse_index};

verus! {

/// The four entries of the main menu.
#[derive(Clone, Copy, Debug, PartialEq, Eq, Structural)]
pub enum MainMenu {
    AddBill,
    ViewBills,
    RemoveBill,
    Exit,
}

/// The menu entry that a line of input names: `1` to `4`, and nothing else.
pub open spec fn menu_choice(s: Seq<char>) -> Option<MainMenu> {
    if s == seq!['1'] {
        Some(MainMenu::AddBill)
    } else if s == seq!['2'] {
        Some(MainMenu::ViewBills)
    } else if s == seq!['3'] {
        Some(MainMenu::RemoveBill)
    } else if s == seq!['4'] {
        Some(MainMenu::Exit)
    } else {
        None
    }
}

impl MainMenu {
    /// The entry named by `input`, or `None` for anything unrecognised.
    pub fn from_input(input: &str) -> (r: Option<MainMenu>)
        ensures
            r == menu_choice(input@),
    {
        if input.unicode_len() != 1 {
            return None;
        }
        let c = input.get_char(0);
        assert(input@ =~= seq![c]);
        if c == '1' {
            Some(MainMenu::AddBill)
        } else if c == '2' {
            Some(MainMenu::ViewBills)
        } else if c == '3' {
            Some(MainMenu::RemoveBill)
        } else if c == '4' {
            Some(MainMenu::Exit)
        } else {
            None
        }
    }

    /// The action to take on `input`: unrecognised input ends the session
    /// just as the exit entry does.
    pub fn select(input: &str) -> (r: MainMenu)
        ensures
            r == (match menu_choice(input@) {
                Some(m) => m,
                None => MainMenu::Exit,
            }),
    {
        match MainMenu::from_input(input) {
            Some(m) => m,
            None => MainMenu::Exit,
        }
    }
}

/// Why a bill was not added.
#[derive(Clone, Copy, Debug, PartialEq, Eq, Structural)]
pub enum AddBillError {
    EmptyDescription,
    EmptyAmount,
    InvalidAmount,
}

impl AddBillError {
    pub fn message(&self) -> (r: String)
        ensures
            r@ == (match *self {
                AddBillError::EmptyDescription => "Description cannot be empty. Bill not added."@,
                AddBillError::EmptyAmount => "Amount cannot be empty. Bill not added."@,
                AddBillError::InvalidAmount => "Invalid amount. Bill not added."@,
            }),
    {
        match self {
            AddBillError::EmptyDescription => String::from_str(
                "Description cannot be empty. Bill not added.",
            ),
            AddBillError::EmptyAmount => String::from_str("Amount cannot be empty. Bill not added."),
            AddBillError::InvalidAmount => String::from_str("Invalid amount. Bill not added."),
        }
    }
}

/// Why no bill was removed.
#[derive(Clone, Copy, Debug, PartialEq, Eq, Structural)]
pub enum RemoveBillError {
    InvalidIndex,
    NotFound,
}

impl RemoveBillError {
    pub fn message(&self) -> (r: String)
        ensures
            r@ == (match *self {
                RemoveBillError::InvalidIndex => "Invalid index. No bill removed."@,
                RemoveBillError::NotFound => "No bill found at the given index. No bill removed."@,
            }),
    {
        match self {
            RemoveBillError::InvalidIndex => String::from_str("Invalid index. No bill removed."),
            RemoveBillError::NotFound => String::from_str(
                "No bill found at the given index. No bill removed.",
            ),
        }
    }
}

/// Checks the description that a user entered for a new bill; the amount is
/// asked for only once this passes.
pub fn check_description(description: &str) -> (r: Result<(), AddBillError>)
    ensures
        r is Ok <==> description@.len() > 0,
        r is Err ==> r == Err::<(), AddBillError>(AddBillError::EmptyDescription),
{
    if description.is_empty() {
        Err(AddBillError::EmptyDescription)
    } else {
        Ok(())
    }
}

/// Adds the bill that a user entered: its description, the text entered for
/// its amount, and that amount in cents where the text reads as a number.
/// A rejected bill leaves the store as it was.
pub fn add_bill(
    bills: &mut BillManager,
    description: String,
    amount_text: &str,
    amount: Option<i64>,
) -> (r: Result<(), AddBillError>)
    ensures
        description@.len() == 0 ==> r == Err::<(), AddBillError>(AddBillError::EmptyDescription),
        description@.len() > 0 && amount_text@.len() == 0 ==> r == Err::<(), AddBillError>(
            AddBillError::EmptyAmount,
        ),
        description@.len() > 0 && amount_text@.len() > 0 && amount is None ==> r == Err::<
            (),
            AddBillError,
        >(AddBillError::InvalidAmount),
        r is Ok <==> (description@.len() > 0 && amount_text@.len() > 0 && amount is Some),
        r is Ok ==> final(bills)@ == old(bills)@.push((description@, amount->0 as int)),
        r is Err ==> final(bills)@ == old(bills)@,
{
    if let Err(e) = check_description(description.as_str()) {
        return Err(e);
    }
    if amount_text.is_empty() {
        return Err(AddBillError::EmptyAmount);
    }
    match amount {
        Some(cents) => {
            bills.add_bill(Bill::new(description, cents));
            Ok(())
        },
        None => Err(AddBillError::InvalidAmount),
    }
}

/// Removes the bill at the one-based position that a user entered as text.
/// Text that is not an unsigned integer is rejected; a position of zero or
/// past the end finds no bill. Either way the store is left as it was.
pub fn remove_bill(bills: &mut BillManager, index_input: &str) -> (r: Result<(), RemoveBillError>)
    ensures
        index_value(index_input@) is None ==> r == Err::<(), RemoveBillError>(
            RemoveBillError::InvalidIndex,
        ),
        r is Ok <==> (index_value(index_input@) is Some && 1 <= index_value(index_input@)->0
            <= old(bills)@.len()),
        r is Ok ==> final(bills)@ == old(bills)@.remove(index_value(index_input@)->0 - 1),
        r == Err::<(), RemoveBillError>(RemoveBillError::NotFound) <==> (index_value(
            index_input@,
        ) is Some && !(1 <= index_value(index_input@)->0 <= old(bills)@.len())),
        r is Err ==> final(bills)@ == old(bills)@,
{
    match parse_index(index_input) {
        None => Err(RemoveBillError::InvalidIndex),
        Some(n) => {
            if n == 0 {
                Err(RemoveBillError::NotFound)
            } else if bills.remove_bill(n - 1) {
                Ok(())
            } else {
                Err(RemoveBillError::NotFound)
            }
        },
    }
}

/// One line of a listing: the bill's one-based position, its description and
/// its amount with two decimals, as `2. Water - $35.75`.
pub open spec fn bill_line(position: nat, bill: BillView) -> Seq<char> {
    decimal(position) + ". "@ + bill.0 + " - $"@ + amount_text(bill.1)
}

/// The lines that show the store: a notice when it is empty, else a heading
/// and one numbered line per bill, in store order.
pub open spec fn listing(bills: Seq<BillView>) -> Seq<Seq<char>> {
    if bills.len() == 0 {
        seq!["No bills to display."@]
    } else {
        seq!["Bills:"@] + Seq::new(bills.len(), |i: int| bill_line((i + 1) as nat, bills[i]))
    }
}

/// The lines that show every bill in the store.
pub fn view_bills(bills: &BillManager) -> (r: Vec<String>)
    ensures
        r@.map_values(|l: String| l@) == listing(bills@),
{
    let all_bills = bills.get_bills();
    let mut r: Vec<String> = Vec::new();
    if all_bills.len() == 0 {
        r.push(String::from_str("No bills to display."));
        assert(r@.map_values(|l: String| l@) =~= listing(bills@));
        return r;
    }
    r.push(String::from_str("Bills:"));
    let mut i: usize = 0;
    while i < all_bills.len()
        invariant
            i <= all_bills@.len(),
            all_bills@.len() == bills@.len(),
            bills@.len() > 0,
            forall|k: int| 0 <= k < all_bills@.len() ==> all_bills@[k]@ == bills@[k],
            r@.len() == i + 1,
            r@[0]@ == "Bills:"@,
            forall|k: int| 0 <= k < i ==> r@[k + 1]@ == bill_line((k + 1) as nat, bills@[k]),
        decreases all_bills@.len() - i,
    {
        let bill = all_bills[i];
        let mut line = decimal_string((i + 1) as u64);
        line.append(". ");
        line.append(bill.description.as_str());
        line.append(" - $");
        let amount = amount_string(bill.amount);
        line.append(amount.as_str());
        r.push(line);
        i = i + 1;
    }
    assert(r@.map_values(|l: String| l@) =~= listing(bills@));
    r
}

} // verus!
