//! What a command hands back to the host: transfer instructions to carry out
//! and event attributes to publish.

use vstd::prelude::*;

verus! {

/// An amount of one denomination, as sent along with a command.
#[derive(Clone, Debug, PartialEq, Eq)]
pub struct Coin {
    pub denom: String,
    pub amount: u128,
}

/// An instruction to the host: pay `amount` of `denom` to `to_address`.
#[derive(Clone, Debug, PartialEq, Eq)]
pub struct Transfer {
    pub to_address: String,
    pub amount: u128,
    pub denom: String,
}

/// A transfer as a value.
pub struct TransferView {
    pub to_address: Seq<char>,
    pub amount: u128,
    pub denom: Seq<char>,
}

impl View for Transfer {
    type V = TransferView;

    open spec fn view(&self) -> TransferView {
        TransferView { to_address: self.to_address@, amount: self.amount, denom: self.denom@ }
    }
}

/// A key and a value published with the outcome of a command.
#[derive(Clone, Debug, PartialEq, Eq)]
pub struct Attribute {
    pub key: String,
    pub value: String,
}

impl View for Attribute {
    type V = (Seq<char>, Seq<char>);

    open spec fn view(&self) -> (Seq<char>, Seq<char>) {
        (self.key@, self.value@)
    }
}

/// The outcome of an accepted command.
#[derive(Clone, Debug, PartialEq, Eq)]
pub struct Response {
    /// Transfers the host must execute together with the state change.
    pub messages: Vec<Transfer>,
    pub attributes: Vec<Attribute>,
}

/// A response as a value: the transfers in order, and the attributes as
/// pairs of key and value.
pub struct ResponseView {
    pub messages: Seq<TransferView>,
    pub attributes: Seq<(Seq<char>, Seq<char>)>,
}

impl View for Response {
    type V = ResponseView;

    open spec fn view(&self) -> ResponseView {
        ResponseView {
            messages: self.messages@.map_values(|t: Transfer| t@),
            attributes: self.attributes@.map_values(|a: Attribute| a@),
        }
    }
}

impl Response {
    /// A response with no transfer and no attribute.
    pub fn new() -> (r: Response)
        ensures
            r@.messages == Seq::<TransferView>::empty(),
            r@.attributes == Seq::<(Seq<char>, Seq<char>)>::empty(),
    {
        let r = Response { messages: Vec::new(), attributes: Vec::new() };
        assert(r@.messages =~= Seq::<TransferView>::empty());
        assert(r@.attributes =~= Seq::<(Seq<char>, Seq<char>)>::empty());
        r
    }

    /// Appends the attribute `key` = `value`.
    pub fn add_attribute(&mut self, key: &str, value: String)
        ensures
            final(self)@.messages == old(self)@.messages,
            final(self)@.attributes == old(self)@.attributes.push((key@, value@)),
    {
        let a = Attribute { key: key.to_owned(), value };
        self.attributes.push(a);
        assert(self@.attributes =~= old(self)@.attributes.push((key@, value@)));
    }

    /// Appends a transfer of `amount` of `denom` to `to_address`.
    pub fn add_transfer(&mut self, to_address: String, amount: u128, denom: String)
        ensures
            final(self)@.attributes == old(self)@.attributes,
            final(self)@.messages == old(self)@.messages.push(
                TransferView { to_address: to_address@, amount, denom: denom@ },
            ),
    {
        let t = Transfer { to_address, amount, denom };
        self.messages.push(t);
        assert(self@.messages =~= old(self)@.messages.push(
            TransferView { to_address: to_address@, amount, denom: denom@ },
        ));
    }
}

/// The amount of the first coin of `denom` among `funds`, if there is one.
pub open spec fn spec_funds_in_denom(funds: Seq<Coin>, denom: Seq<char>) -> Option<u128>
    decreases funds.len(),
{
    if funds.len() == 0 {
        None
    } else if funds[0].denom@ == denom {
        Some(funds[0].amount)
    } else {
        spec_funds_in_denom(funds.drop_first(), denom)
    }
}

/// Finds what was sent in the settlement denomination: the amount of the
/// first coin of `denom`.
pub fn funds_in_denom(funds: &Vec<Coin>, denom: &String) -> (r: Option<u128>)
    ensures
        r == spec_funds_in_denom(funds@, denom@),
{
    let mut i: usize = 0;
    assert(funds@.subrange(0, funds.len() as int) =~= funds@);
    while i < funds.len()
        invariant
            i <= funds.len(),
            spec_funds_in_denom(funds@, denom@) == spec_funds_in_denom(
                funds@.subrange(i as int, funds.len() as int),
                denom@,
            ),
        decreases funds.len() - i,
    {
        let ghost rest = funds@.subrange(i as int, funds.len() as int);
        assert(rest[0] == funds@[i as int]);
        if funds[i].denom == *denom {
            return Some(funds[i].amount);
        }
        assert(rest.drop_first() =~= funds@.subrange(i + 1, funds.len() as int));
        i = i + 1;
    }
    assert(funds@.subrange(i as int, funds.len() as int).len() == 0);
    None
}

/// What a sender tendered in `denom`: the amount of the first coin of that
/// denomination, nothing if there is none.
pub open spec fn spec_tendered(funds: Seq<Coin>, denom: Seq<char>) -> u128 {
    match spec_funds_in_denom(funds, denom) {
        Some(v) => v,
        None => 0,
    }
}

/// What a sender tendered in `denom`.
pub fn tendered(funds: &Vec<Coin>, denom: &String) -> (r: u128)
    ensures
        r == spec_tendered(funds@, denom@),
{
    match funds_in_denom(funds, denom) {
        Some(v) => v,
        None => 0,
    }
}

} // verus!
