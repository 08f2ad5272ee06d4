use stylus_inheritance_examples::address::Address;
use stylus_inheritance_examples::erc20::export_abi;
use stylus_inheritance_examples::erc20::Erc20;
use stylus_inheritance_examples::erc20::Erc20Error;
use stylus_inheritance_examples::erc20::Erc20Params;
use stylus_inheritance_examples::erc20::StylusToken;
use stylus_inheritance_examples::uint256::U256;

fn test_params() -> Erc20Params {
    Erc20Params {
        name: String::from("TestToken"),
        symbol: String::from("TT"),
        decimals: 6,
    }
}

fn addr(n: u128) -> Address {
    Address::new(0, n)
}

fn amount(n: u128) -> U256 {
    U256::from_u128(n)
}

#[test]
fn mint_transfer_approve_scenario() {
    let a = addr(1);
    let b = addr(2);
    let c = addr(3);
    let mut ledger = Erc20::new(test_params());

    ledger.mint(a, amount(1000)).expect("mint succeeds");
    assert_eq!(ledger.balance_of(a).unwrap(), amount(1000));
    assert_eq!(ledger.total_supply().unwrap(), amount(1000));

    assert_eq!(ledger.transfer(a, b, amount(100)).unwrap(), true);
    assert_eq!(ledger.balance_of(a).unwrap(), amount(900));
    assert_eq!(ledger.balance_of(b).unwrap(), amount(100));
    assert_eq!(ledger.total_supply().unwrap(), amount(1000));

    assert_eq!(ledger.approve(a, b, amount(50)).unwrap(), true);
    assert_eq!(ledger.allowance(a, b).unwrap(), amount(50));

    assert_eq!(ledger.transfer_from(b, a, c, amount(50)).unwrap(), true);
    assert_eq!(ledger.balance_of(a).unwrap(), amount(850));
    assert_eq!(ledger.balance_of(c).unwrap(), amount(50));
    assert_eq!(ledger.allowance(a, b).unwrap(), amount(0));
    assert_eq!(ledger.total_supply().unwrap(), amount(1000));
}

#[test]
fn transfer_moves_exact_amounts() {
    let a = addr(10);
    let b = addr(11);
    let mut ledger = Erc20::new(test_params());
    ledger.mint(a, amount(300)).expect("mint succeeds");
    ledger.mint(b, amount(40)).expect("mint succeeds");

    assert_eq!(ledger.transfer(a, b, amount(123)).unwrap(), true);
    assert_eq!(ledger.balance_of(a).unwrap(), amount(177));
    assert_eq!(ledger.balance_of(b).unwrap(), amount(163));
    assert_eq!(ledger.total_supply().unwrap(), amount(340));
}

#[test]
fn self_transfer_is_a_net_no_op() {
    let a = addr(21);
    let mut ledger = Erc20::new(test_params());
    ledger.mint(a, amount(77)).expect("mint succeeds");
    assert_eq!(ledger.transfer(a, a, amount(50)).unwrap(), true);
    assert_eq!(ledger.balance_of(a).unwrap(), amount(77));
    assert_eq!(ledger.total_supply().unwrap(), amount(77));
}

#[test]
fn transfer_with_insufficient_balance_changes_nothing() {
    let a = addr(4);
    let b = addr(5);
    let mut ledger = Erc20::new(test_params());
    ledger.mint(a, amount(10)).expect("mint succeeds");

    let r = ledger.transfer(a, b, amount(11));
    assert_eq!(
        r,
        Err(Erc20Error::InsufficientBalance {
            from: a,
            have: amount(10),
            want: amount(11),
        })
    );
    assert_eq!(ledger.balance_of(a).unwrap(), amount(10));
    assert_eq!(ledger.balance_of(b).unwrap(), amount(0));
    assert_eq!(ledger.total_supply().unwrap(), amount(10));
}

#[test]
fn transfer_from_with_insufficient_allowance_changes_nothing() {
    let owner = addr(6);
    let spender = addr(7);
    let to = addr(8);
    let mut ledger = Erc20::new(test_params());
    ledger.mint(owner, amount(100)).expect("mint succeeds");
    ledger.approve(owner, spender, amount(30)).expect("approve succeeds");

    let r = ledger.transfer_from(spender, owner, to, amount(31));
    assert_eq!(
        r,
        Err(Erc20Error::InsufficientAllowance {
            owner,
            spender,
            have: amount(30),
            want: amount(31),
        })
    );
    assert_eq!(ledger.balance_of(owner).unwrap(), amount(100));
    assert_eq!(ledger.balance_of(to).unwrap(), amount(0));
    assert_eq!(ledger.allowance(owner, spender).unwrap(), amount(30));
}

#[test]
fn transfer_from_with_insufficient_balance_keeps_allowance() {
    let owner = addr(12);
    let spender = addr(13);
    let to = addr(14);
    let mut ledger = Erc20::new(test_params());
    ledger.mint(owner, amount(50)).expect("mint succeeds");
    ledger.approve(owner, spender, amount(100)).expect("approve succeeds");

    let r = ledger.transfer_from(spender, owner, to, amount(80));
    assert_eq!(
        r,
        Err(Erc20Error::InsufficientBalance {
            from: owner,
            have: amount(50),
            want: amount(80),
        })
    );
    // All-or-nothing: the allowance was not decremented on the failed call.
    assert_eq!(ledger.allowance(owner, spender).unwrap(), amount(100));
    assert_eq!(ledger.balance_of(owner).unwrap(), amount(50));
    assert_eq!(ledger.balance_of(to).unwrap(), amount(0));
}

#[test]
fn approve_is_last_write_wins() {
    let owner = addr(15);
    let spender = addr(16);
    let mut ledger = Erc20::new(test_params());
    ledger.approve(owner, spender, amount(500)).expect("approve succeeds");
    ledger.approve(owner, spender, amount(7)).expect("approve succeeds");
    assert_eq!(ledger.allowance(owner, spender).unwrap(), amount(7));
}

#[test]
fn mint_accepts_the_zero_address() {
    let zero = Address::zero();
    let mut ledger = Erc20::new(test_params());
    ledger.mint(zero, amount(5)).expect("mint succeeds");
    assert_eq!(ledger.balance_of(zero).unwrap(), amount(5));
    assert_eq!(ledger.total_supply().unwrap(), amount(5));
}

#[test]
fn queries_report_the_configuration() {
    let ledger = Erc20::new(test_params());
    assert_eq!(ledger.name().unwrap(), String::from("TestToken"));
    assert_eq!(ledger.symbol().unwrap(), String::from("TT"));
    assert_eq!(ledger.decimals().unwrap(), 6);
}

#[test]
fn paused_token_rejects_mint_and_transfer() {
    let caller = addr(30);
    let other = addr(31);
    let mut token = StylusToken::new();

    token.pause().expect("pause succeeds");
    assert_eq!(token.mint(caller, amount(1)), Err(Erc20Error::Paused));
    assert_eq!(token.transfer(caller, other, amount(1)), Err(Erc20Error::Paused));
    assert_eq!(token.erc20.total_supply().unwrap(), amount(0));

    token.unpause().expect("unpause succeeds");
    token.mint(caller, amount(1)).expect("mint succeeds after unpause");
    assert_eq!(token.erc20.balance_of(caller).unwrap(), amount(1));
    assert_eq!(token.erc20.total_supply().unwrap(), amount(1));
}

#[test]
fn token_mints_to_the_caller_only() {
    let caller = addr(32);
    let other = addr(33);
    let mut token = StylusToken::new();
    token.mint(caller, amount(9)).expect("mint succeeds");
    assert_eq!(token.erc20.balance_of(caller).unwrap(), amount(9));
    assert_eq!(token.erc20.balance_of(other).unwrap(), amount(0));
}

#[test]
fn token_transfer_delegates_to_the_ledger() {
    let caller = addr(34);
    let other = addr(35);
    let mut token = StylusToken::new();
    token.mint(caller, amount(20)).expect("mint succeeds");
    assert_eq!(token.transfer(caller, other, amount(8)).unwrap(), true);
    assert_eq!(token.erc20.balance_of(caller).unwrap(), amount(12));
    assert_eq!(token.erc20.balance_of(other).unwrap(), amount(8));
    let r = token.transfer(caller, other, amount(13));
    assert_eq!(
        r,
        Err(Erc20Error::InsufficientBalance {
            from: caller,
            have: amount(12),
            want: amount(13),
        })
    );
}

#[test]
fn token_reports_its_configuration() {
    let token = StylusToken::new();
    assert_eq!(token.erc20.name().unwrap(), String::from("StylusToken"));
    assert_eq!(token.erc20.symbol().unwrap(), String::from("STK"));
    assert_eq!(token.erc20.decimals().unwrap(), 18);
}

#[test]
fn export_abi_renders_the_interface() {
    let abi = export_abi();
    assert!(abi.starts_with("interface IStylusToken {"));
    assert!(abi.contains("function transfer(address to, uint256 value)"));
    assert!(abi.contains("function balanceOf(address account)"));
    assert!(abi.ends_with("}\n"));
}
