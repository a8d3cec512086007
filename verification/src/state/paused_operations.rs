use vstd::prelude::*;

verus! {

/// Market operations that can be paused, one bit each.
#[derive(Clone, Copy, PartialEq, Eq, Debug, Structural)]
pub enum MarketOperation {
    Create,
    Deposit,
    Withdraw,
    Lend,
    Transfer,
    Delete,
    Liquidation,
}

impl MarketOperation {
    pub open spec fn spec_bit(self) -> u8 {
        match self {
            MarketOperation::Create => 0b00000001,
            MarketOperation::Deposit => 0b00000010,
            MarketOperation::Withdraw => 0b00000100,
            MarketOperation::Lend => 0b00001000,
            MarketOperation::Transfer => 0b00010000,
            MarketOperation::Delete => 0b00100000,
            MarketOperation::Liquidation => 0b01000000,
        }
    }

    /// The bit that pauses the operation.
    pub fn bit(self) -> (r: u8)
        ensures
            r == self.spec_bit(),
    {
        match self {
            MarketOperation::Create => 0b00000001,
            MarketOperation::Deposit => 0b00000010,
            MarketOperation::Withdraw => 0b00000100,
            MarketOperation::Lend => 0b00001000,
            MarketOperation::Transfer => 0b00010000,
            MarketOperation::Delete => 0b00100000,
            MarketOperation::Liquidation => 0b01000000,
        }
    }

    /// Whether the operation's bit is set in `current`.
    pub fn is_operation_paused(current: u8, operation: MarketOperation) -> (r: bool)
        ensures
            r == (current & operation.spec_bit() != 0),
    {
        (current & operation.bit()) != 0
    }

    /// The operations paused in `current`, in the order they are reported.
    pub fn paused_operations(current: u8) -> (r: Vec<MarketOperation>)
        ensures
            forall|i: int| 0 <= i < r@.len() ==> current & (#[trigger] r@[i]).spec_bit() != 0,
            forall|op: MarketOperation| current & op.spec_bit() != 0 && op != MarketOperation::Deposit
                ==> r@.contains(op),
    {
        let all = [
            MarketOperation::Create,
            MarketOperation::Delete,
            MarketOperation::Withdraw,
            MarketOperation::Lend,
            MarketOperation::Transfer,
            MarketOperation::Delete,
            MarketOperation::Liquidation,
        ];
        let mut r: Vec<MarketOperation> = Vec::new();
        let mut i: usize = 0;
        while i < 7
            invariant
                i <= 7,
                all@ == seq![
                    MarketOperation::Create,
                    MarketOperation::Delete,
                    MarketOperation::Withdraw,
                    MarketOperation::Lend,
                    MarketOperation::Transfer,
                    MarketOperation::Delete,
                    MarketOperation::Liquidation,
                ],
                forall|k: int| 0 <= k < r@.len() ==> current & (#[trigger] r@[k]).spec_bit() != 0,
                forall|k: int| 0 <= k < i && current & (#[trigger] all@[k]).spec_bit() != 0 ==> r@.contains(all@[k]),
            decreases 7 - i,
        {
            let op = all[i];
            let ghost prev = r@;
            if MarketOperation::is_operation_paused(current, op) {
                r.push(op);
                proof {
                    assert(r@[r@.len() - 1] == op);
                }
            }
            proof {
                assert forall|k: int| 0 <= k < i + 1 && current & (#[trigger] all@[k]).spec_bit() != 0 implies r@.contains(all@[k]) by {
                    if k < i {
                        assert(prev.contains(all@[k]));
                        let j = choose|j: int| 0 <= j < prev.len() && prev[j] == all@[k];
                        assert(r@[j] == all@[k]);
                    } else {
                        assert(r@[r@.len() - 1] == all@[k]);
                    }
                }
            }
            i = i + 1;
        }
        proof {
            assert forall|op: MarketOperation| current & op.spec_bit() != 0 && op != MarketOperation::Deposit implies r@.contains(op) by {
                match op {
                    MarketOperation::Create => assert(all@[0] == op),
                    MarketOperation::Delete => assert(all@[1] == op),
                    MarketOperation::Withdraw => assert(all@[2] == op),
                    MarketOperation::Lend => assert(all@[3] == op),
                    MarketOperation::Transfer => assert(all@[4] == op),
                    MarketOperation::Liquidation => assert(all@[6] == op),
                    MarketOperation::Deposit => {},
                }
            }
        }
        r
    }
}

/// Insurance fund operations that can be paused, one bit each.
#[derive(Clone, Copy, PartialEq, Eq, Debug, Structural)]
pub enum InsuranceFundOperation {
    Init,
    Add,
    RequestRemove,
    Remove,
}

impl InsuranceFundOperation {
    pub open spec fn spec_bit(self) -> u8 {
        match self {
            InsuranceFundOperation::Init => 0b00000001,
            InsuranceFundOperation::Add => 0b00000010,
            InsuranceFundOperation::RequestRemove => 0b00000100,
            InsuranceFundOperation::Remove => 0b00001000,
        }
    }

    pub fn bit(self) -> (r: u8)
        ensures
            r == self.spec_bit(),
    {
        match self {
            InsuranceFundOperation::Init => 0b00000001,
            InsuranceFundOperation::Add => 0b00000010,
            InsuranceFundOperation::RequestRemove => 0b00000100,
            InsuranceFundOperation::Remove => 0b00001000,
        }
    }

    /// Whether the operation's bit is set in `current`.
    pub fn is_operation_paused(current: u8, operation: InsuranceFundOperation) -> (r: bool)
        ensures
            r == (current & operation.spec_bit() != 0),
    {
        (current & operation.bit()) != 0
    }

    /// The operations paused in `current`, in the order they are reported.
    pub fn paused_operations(current: u8) -> (r: Vec<InsuranceFundOperation>)
        ensures
            forall|op: InsuranceFundOperation| r@.contains(op) <==> current & op.spec_bit() != 0,
    {
        let all = [
            InsuranceFundOperation::Init,
            InsuranceFundOperation::Add,
            InsuranceFundOperation::RequestRemove,
            InsuranceFundOperation::Remove,
        ];
        let mut r: Vec<InsuranceFundOperation> = Vec::new();
        let mut i: usize = 0;
        while i < 4
            invariant
                i <= 4,
                all@ == seq![
                    InsuranceFundOperation::Init,
                    InsuranceFundOperation::Add,
                    InsuranceFundOperation::RequestRemove,
                    InsuranceFundOperation::Remove,
                ],
                forall|op: InsuranceFundOperation| r@.contains(op) <==>
                    (current & op.spec_bit() != 0 && exists|k: int| 0 <= k < i && all@[k] == op),
            decreases 4 - i,
        {
            let op = all[i];
            let ghost prev = r@;
            if InsuranceFundOperation::is_operation_paused(current, op) {
                r.push(op);
            }
            proof {
                assert forall|o: InsuranceFundOperation| r@.contains(o) <==>
                    (current & o.spec_bit() != 0 && exists|k: int| 0 <= k < i + 1 && all@[k] == o) by {
                    if r@.contains(o) {
                        if prev.contains(o) {
                            let k = choose|k: int| 0 <= k < i && all@[k] == o;
                            assert(0 <= k < i + 1 && all@[k] == o);
                        } else {
                            let j = choose|j: int| 0 <= j < r@.len() && r@[j] == o;
                            assert(j == prev.len());
                            assert(all@[i as int] == o);
                        }
                    }
                    if current & o.spec_bit() != 0 && exists|k: int| 0 <= k < i + 1 && all@[k] == o {
                        let k = choose|k: int| 0 <= k < i + 1 && all@[k] == o;
                        if k < i {
                            assert(prev.contains(o));
                            let j = choose|j: int| 0 <= j < prev.len() && prev[j] == o;
                            assert(r@[j] == o);
                        } else {
                            assert(r@[r@.len() - 1] == o);
                        }
                    }
                }
            }
            i = i + 1;
        }
        proof {
            assert forall|o: InsuranceFundOperation| r@.contains(o) <==> current & o.spec_bit() != 0 by {
                if current & o.spec_bit() != 0 {
                    match o {
                        InsuranceFundOperation::Init => assert(all@[0] == o),
                        InsuranceFundOperation::Add => assert(all@[1] == o),
                        InsuranceFundOperation::RequestRemove => assert(all@[2] == o),
                        InsuranceFundOperation::Remove => assert(all@[3] == o),
                    }
                }
            }
        }
        r
    }
}

} // verus!
