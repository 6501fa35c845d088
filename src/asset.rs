use vstd::prelude::*;

use vstd::string::StringSliceAdditionalSpecFns;

use crate::market::{Market, Reserve};

verus! {

/// Whether two strings are the same text, compared through their UTF-8 bytes.
fn same_text(a: &str, b: &str) -> (r: bool)
    ensures
        r == (a@ == b@),
{
    let x = a.as_bytes();
    let y = b.as_bytes();
    proof {
        vstd::utf8::encode_utf8_decode_utf8(a@);
        vstd::utf8::encode_utf8_decode_utf8(b@);
    }
    if x.len() != y.len() {
        return false;
    }
    let mut i: usize = 0;
    while i < x.len()
        invariant
            x@ == a.spec_bytes(),
            y@ == b.spec_bytes(),
            x@.len() == y@.len(),
            i <= x@.len(),
            x@.subrange(0, i as int) == y@.subrange(0, i as int),
        decreases x@.len() - i,
    {
        if x[i] != y[i] {
            assert(x@[i as int] != y@[i as int]);
            return false;
        }
        assert(x@.subrange(0, i + 1) =~= x@.subrange(0, i as int).push(x@[i as int]));
        assert(y@.subrange(0, i + 1) =~= y@.subrange(0, i as int).push(y@[i as int]));
        i = i + 1;
    }
    assert(x@ =~= x@.subrange(0, i as int));
    assert(y@ =~= y@.subrange(0, i as int));
    true
}

/// The assets the harness can borrow.
#[derive(Clone, Copy, Debug, PartialEq, Eq)]
pub enum BorrowAsset {
    Sol,
    Usdc,
}

impl BorrowAsset {
    pub open spec fn symbol(self) -> Seq<char> {
        match self {
            BorrowAsset::Sol => "SOL"@,
            BorrowAsset::Usdc => "USDC"@,
        }
    }

    pub open spec fn reserve_spec(self, market: Market) -> Reserve {
        match self {
            BorrowAsset::Sol => market.sol,
            BorrowAsset::Usdc => market.usdc,
        }
    }

    /// The asset named `symbol`; `None` for any symbol outside the supported
    /// set, which callers treat as fatal.
    pub fn from_symbol(symbol: &str) -> (r: Option<BorrowAsset>)
        ensures
            match r {
                Some(a) => symbol@ == a.symbol(),
                None => symbol@ != "SOL"@ && symbol@ != "USDC"@,
            },
    {
        if same_text(symbol, "SOL") {
            Some(BorrowAsset::Sol)
        } else if same_text(symbol, "USDC") {
            Some(BorrowAsset::Usdc)
        } else {
            None
        }
    }

    /// The reserve of this asset in `market`.
    pub fn reserve(self, market: &Market) -> (r: Reserve)
        ensures
            r == self.reserve_spec(*market),
    {
        match self {
            BorrowAsset::Sol => market.sol,
            BorrowAsset::Usdc => market.usdc,
        }
    }
}

/// The reserves whose obligation farms the harness can initialise.
#[derive(Clone, Copy, Debug, PartialEq, Eq)]
pub enum FarmReserve {
    Sol,
}

impl FarmReserve {
    pub open spec fn symbol(self) -> Seq<char> {
        match self {
            FarmReserve::Sol => "SOL"@,
        }
    }

    pub open spec fn reserve_spec(self, market: Market) -> Reserve {
        match self {
            FarmReserve::Sol => market.sol,
        }
    }

    /// The reserve named `symbol`; `None` for any name outside the supported
    /// set, which callers treat as fatal.
    pub fn from_symbol(symbol: &str) -> (r: Option<FarmReserve>)
        ensures
            match r {
                Some(a) => symbol@ == a.symbol(),
                None => symbol@ != "SOL"@,
            },
    {
        if same_text(symbol, "SOL") {
            Some(FarmReserve::Sol)
        } else {
            None
        }
    }

    /// The reserve in `market`.
    pub fn reserve(self, market: &Market) -> (r: Reserve)
        ensures
            r == self.reserve_spec(*market),
    {
        match self {
            FarmReserve::Sol => market.sol,
        }
    }
}

} // verus!
