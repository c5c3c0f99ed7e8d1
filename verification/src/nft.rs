//! A builder for firewall-tool invocations, mirroring the tool's own
//! command grammar: each step appends the words it stands for.

use vstd::prelude::*;

verus! {

/// The address family a table lives in.
#[derive(Debug, Clone, Copy)]
pub enum Family {
    Inet,
}

/// The word of an address family.
pub open spec fn spec_family_text(f: Family) -> Seq<char> {
    match f {
        Family::Inet => "inet"@,
    }
}

impl Family {
    /// The word of this address family.
    pub fn to_text(&self) -> (r: String)
        ensures
            r@ == spec_family_text(*self),
    {
        match self {
            Family::Inet => "inet".to_owned(),
        }
    }
}

/// An invocation of the firewall tool under construction.
#[derive(Debug)]
pub struct Nft {
    args: Vec<String>,
}

impl View for Nft {
    type V = Seq<Seq<char>>;

    closed spec fn view(&self) -> Seq<Seq<char>> {
        self.args.deep_view()
    }
}

/// An `add` subcommand awaiting what to add.
#[derive(Debug)]
pub struct Add {
    nft: Nft,
}

impl View for Add {
    type V = Seq<Seq<char>>;

    closed spec fn view(&self) -> Seq<Seq<char>> {
        self.nft@
    }
}

impl Nft {
    /// An invocation holding only the tool binary itself.
    pub fn new(bin: &str) -> (r: Self)
        ensures
            r@ == seq![bin@],
    {
        let mut args: Vec<String> = Vec::new();
        args.push(bin.to_owned());
        let r = Nft { args };
        proof {
            assert(r@ =~= seq![bin@]);
        }
        r
    }

    /// The `add` subcommand.
    pub fn add(self) -> (r: Add)
        ensures
            r@ == self@.push("add"@),
    {
        let mut s = self;
        s.args.push("add".to_owned());
        proof {
            assert(s@ =~= self@.push("add"@));
        }
        Add { nft: s }
    }

    /// The finished argument vector.
    pub fn build(self) -> (r: Vec<String>)
        ensures
            r.deep_view() == self@,
    {
        self.args
    }
}

impl Add {
    /// Adds a table of the given family and name.
    pub fn table(self, family: Family, name: &str) -> (r: Nft)
        ensures
            r@ == self@ + seq!["table"@, spec_family_text(family), name@],
    {
        let mut s = self.nft;
        s.args.push("table".to_owned());
        s.args.push(family.to_text());
        s.args.push(name.to_owned());
        proof {
            assert(s@ =~= self@ + seq!["table"@, spec_family_text(family), name@]);
        }
        s
    }
}

} // verus!
