//! The payment entities and their textual codes.

use vstd::prelude::*;
use vstd::string::*;

verus! {

/// How a payment was made.
#[derive(Debug, Clone, Copy, PartialEq, Eq, Structural, Hash)]
pub enum PaymentMethod {
    Cash,
    CreditCard,
    BankTransfer,
    EWallet,
}

/// Whether a payment is settled or is being paid in installments.
#[derive(Debug, Clone, Copy, PartialEq, Eq, Structural, Hash)]
pub enum PaymentStatus {
    Paid,
    Installment,
}

impl PaymentMethod {
    /// The code under which the method is stored and exchanged.
    pub open spec fn code(self) -> Seq<char> {
        match self {
            PaymentMethod::Cash => "CASH"@,
            PaymentMethod::CreditCard => "CREDIT_CARD"@,
            PaymentMethod::BankTransfer => "BANK_TRANSFER"@,
            PaymentMethod::EWallet => "E_WALLET"@,
        }
    }

    /// The method that a code stands for, if any. The match is exact.
    pub open spec fn of_code(code: Seq<char>) -> Option<PaymentMethod> {
        if code == "CASH"@ {
            Some(PaymentMethod::Cash)
        } else if code == "CREDIT_CARD"@ {
            Some(PaymentMethod::CreditCard)
        } else if code == "BANK_TRANSFER"@ {
            Some(PaymentMethod::BankTransfer)
        } else if code == "E_WALLET"@ {
            Some(PaymentMethod::EWallet)
        } else {
            None
        }
    }

    /// The method's code as an owned text.
    pub fn to_string(&self) -> (r: String)
        ensures
            r@ == self.code(),
    {
        match self {
            PaymentMethod::Cash => "CASH".to_string(),
            PaymentMethod::CreditCard => "CREDIT_CARD".to_string(),
            PaymentMethod::BankTransfer => "BANK_TRANSFER".to_string(),
            PaymentMethod::EWallet => "E_WALLET".to_string(),
        }
    }

    /// Reads a stored code. Only the four codes are accepted, letter for letter.
    pub fn from_code(code: &str) -> (r: Option<PaymentMethod>)
        ensures
            r == Self::of_code(code@),
    {
        if code.eq("CASH") {
            Some(PaymentMethod::Cash)
        } else if code.eq("CREDIT_CARD") {
            Some(PaymentMethod::CreditCard)
        } else if code.eq("BANK_TRANSFER") {
            Some(PaymentMethod::BankTransfer)
        } else if code.eq("E_WALLET") {
            Some(PaymentMethod::EWallet)
        } else {
            None
        }
    }

    /// Reading a method's own code gives the method back.
    pub proof fn lemma_code_round_trip(self)
        ensures
            Self::of_code(self.code()) == Some(self),
    {
        reveal_strlit("CASH");
        reveal_strlit("CREDIT_CARD");
        reveal_strlit("BANK_TRANSFER");
        reveal_strlit("E_WALLET");
        assert("CASH"@.len() == 4);
        assert("CREDIT_CARD"@.len() == 11);
        assert("BANK_TRANSFER"@.len() == 13);
        assert("E_WALLET"@.len() == 8);
    }
}

impl PaymentStatus {
    /// The code under which the status is stored and exchanged.
    pub open spec fn code(self) -> Seq<char> {
        match self {
            PaymentStatus::Paid => "LUNAS"@,
            PaymentStatus::Installment => "CICILAN"@,
        }
    }

    /// The status that an upper-case code stands for, if any.
    pub open spec fn of_code(code: Seq<char>) -> Option<PaymentStatus> {
        if code == "LUNAS"@ {
            Some(PaymentStatus::Paid)
        } else if code == "CICILAN"@ {
            Some(PaymentStatus::Installment)
        } else {
            None
        }
    }

    /// The status's code as an owned text.
    pub fn to_string(&self) -> (r: String)
        ensures
            r@ == self.code(),
    {
        match self {
            PaymentStatus::Paid => "LUNAS".to_string(),
            PaymentStatus::Installment => "CICILAN".to_string(),
        }
    }

    /// Reads an upper-case code, letter for letter.
    pub fn from_code(code: &str) -> (r: Option<PaymentStatus>)
        ensures
            r == Self::of_code(code@),
    {
        if code.eq("LUNAS") {
            Some(PaymentStatus::Paid)
        } else if code.eq("CICILAN") {
            Some(PaymentStatus::Installment)
        } else {
            None
        }
    }

    /// Reads a status whatever the case of its letters.
    pub fn from_string(status: &str) -> (r: Option<PaymentStatus>)
        ensures
            r == Self::of_code(crate::text::uppercase_text(status@)),
    {
        let upper = crate::text::to_uppercase(status);
        Self::from_code(upper.as_str())
    }

    /// Reading a status's own code gives the status back.
    pub proof fn lemma_code_round_trip(self)
        ensures
            Self::of_code(self.code()) == Some(self),
    {
        reveal_strlit("LUNAS");
        reveal_strlit("CICILAN");
        assert("LUNAS"@.len() == 5);
        assert("CICILAN"@.len() == 7);
    }
}

/// An instant in universal time: whole seconds since the start of 1970 and
/// the nanoseconds into that second.
#[derive(Debug, Clone, Copy, PartialEq, Eq, PartialOrd, Ord, Structural, Hash)]
pub struct Timestamp {
    pub secs: i64,
    pub nanos: u32,
}

impl Timestamp {
    /// The instant as a count of nanoseconds since the start of 1970.
    pub open spec fn instant(self) -> int {
        self.secs * 1_000_000_000 + self.nanos
    }

    /// Builds an instant from its two parts.
    pub fn new(secs: i64, nanos: u32) -> (r: Timestamp)
        ensures
            r.secs == secs,
            r.nanos == nanos,
    {
        Timestamp { secs, nanos }
    }

    /// Whether this instant is not later than another: its second is
    /// earlier, or the same with no more nanoseconds.
    pub open spec fn precedes(self, other: Timestamp) -> bool {
        self.secs < other.secs || (self.secs == other.secs && self.nanos <= other.nanos)
    }

    /// Whether this instant is not later than another.
    pub fn not_after(&self, other: &Timestamp) -> (r: bool)
        ensures
            r == self.precedes(*other),
    {
        self.secs < other.secs || (self.secs == other.secs && self.nanos <= other.nanos)
    }
}

/// One partial payment towards a payment.
#[derive(Debug, PartialEq, Eq)]
pub struct Installment {
    pub id: String,
    pub payment_id: String,
    /// In hundredths of the currency unit.
    pub amount: i64,
    pub payment_date: Timestamp,
}

/// What an installment holds, as plain values.
pub struct InstallmentView {
    pub id: Seq<char>,
    pub payment_id: Seq<char>,
    pub amount: int,
    pub payment_date: Timestamp,
}

impl View for Installment {
    type V = InstallmentView;

    open spec fn view(&self) -> InstallmentView {
        InstallmentView {
            id: self.id@,
            payment_id: self.payment_id@,
            amount: self.amount as int,
            payment_date: self.payment_date,
        }
    }
}

impl Clone for Installment {
    fn clone(&self) -> (r: Installment)
        ensures
            r@ == self@,
    {
        Installment {
            id: self.id.clone(),
            payment_id: self.payment_id.clone(),
            amount: self.amount,
            payment_date: self.payment_date,
        }
    }
}

/// A payment for a sales transaction, with the installments made towards it.
#[derive(Debug, PartialEq, Eq)]
pub struct Payment {
    pub id: String,
    pub transaction_id: String,
    /// In hundredths of the currency unit.
    pub amount: i64,
    pub method: PaymentMethod,
    pub status: PaymentStatus,
    pub payment_date: Timestamp,
    pub installments: Vec<Installment>,
    pub due_date: Option<Timestamp>,
}

/// What a payment holds, as plain values.
pub struct PaymentView {
    pub id: Seq<char>,
    pub transaction_id: Seq<char>,
    pub amount: int,
    pub method: PaymentMethod,
    pub status: PaymentStatus,
    pub payment_date: Timestamp,
    pub installments: Seq<InstallmentView>,
    pub due_date: Option<Timestamp>,
}

/// The plain values of a list of installments, in order.
pub open spec fn installment_views(list: Seq<Installment>) -> Seq<InstallmentView> {
    Seq::new(list.len(), |i: int| list[i]@)
}

impl View for Payment {
    type V = PaymentView;

    open spec fn view(&self) -> PaymentView {
        PaymentView {
            id: self.id@,
            transaction_id: self.transaction_id@,
            amount: self.amount as int,
            method: self.method,
            status: self.status,
            payment_date: self.payment_date,
            installments: installment_views(self.installments@),
            due_date: self.due_date,
        }
    }
}

/// Copies a list of installments.
pub fn clone_installments(list: &Vec<Installment>) -> (r: Vec<Installment>)
    ensures
        installment_views(r@) == installment_views(list@),
{
    let mut out: Vec<Installment> = Vec::new();
    let mut i: usize = 0;
    while i < list.len()
        invariant
            i <= list.len(),
            out.len() == i,
            forall|k: int| 0 <= k < i ==> out[k]@ == list[k]@,
        decreases list.len() - i,
    {
        out.push(list[i].clone());
        i += 1;
    }
    assert(installment_views(out@) =~= installment_views(list@));
    out
}

impl Clone for Payment {
    fn clone(&self) -> (r: Payment)
        ensures
            r@ == self@,
    {
        Payment {
            id: self.id.clone(),
            transaction_id: self.transaction_id.clone(),
            amount: self.amount,
            method: self.method,
            status: self.status,
            payment_date: self.payment_date,
            installments: clone_installments(&self.installments),
            due_date: self.due_date,
        }
    }
}

} // verus!
