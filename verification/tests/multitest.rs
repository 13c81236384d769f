// Scenarios run on a small simulated chain: a bank that holds balances, and
// contracts of the first or the current release, each with its own storage.
// Funds sent with an action reach the contract before it runs; messages in
// an answer are carried out after it; an action that fails leaves the chain
// as it was.

use std::collections::BTreeMap;

use counting_contract::coin::{Coin, Decimal};
use counting_contract::contract::{balance_use_overflows, donate_overflows, use_balance, ExecStep};
use counting_contract::error::ContractError;
use counting_contract::legacy;
use counting_contract::msg::{ExecMsg, InstantiateMsg, MigrateMsg, Parent, QueryMsg, ValueResp};
use counting_contract::response::{CosmosMsg, Response};
use counting_contract::state::{ContractStore, State};
use counting_contract::{execute, instantiate, migrate, query};

const ATOM: &str = "atom";

#[derive(Clone, Copy, PartialEq, Debug)]
enum Code {
    First,
    Current,
}

#[derive(Clone)]
struct Instance {
    code: Code,
    store: ContractStore,
    admin: Option<String>,
}

#[derive(Clone)]
struct App {
    balances: BTreeMap<String, BTreeMap<String, u128>>,
    contracts: BTreeMap<String, Instance>,
    codes: Vec<Code>,
}

fn coins(amount: u128, denom: &str) -> Vec<Coin> {
    vec![Coin::new(amount, denom)]
}

fn validate_address(addr: &str) -> Result<String, cosmwasm_std::StdError> {
    if addr.len() < 3 || addr.to_lowercase() != addr {
        Err(cosmwasm_std::StdError::generic_err("Invalid input: address not normalized"))
    } else {
        Ok(addr.to_string())
    }
}

fn check_parent(parent: &Option<Parent>) -> Option<Result<String, cosmwasm_std::StdError>> {
    parent.as_ref().map(|p| validate_address(&p.addr))
}

impl App {
    fn new() -> App {
        App { balances: BTreeMap::new(), contracts: BTreeMap::new(), codes: Vec::new() }
    }

    fn init_balance(&mut self, addr: &str, funds: Vec<Coin>) {
        for c in funds {
            *self.balances.entry(addr.to_string()).or_default().entry(c.denom).or_default() += c.amount;
        }
    }

    fn store_code(&mut self, code: Code) -> u64 {
        self.codes.push(code);
        self.codes.len() as u64
    }

    fn query_all_balances(&self, addr: &str) -> Vec<Coin> {
        match self.balances.get(addr) {
            None => vec![],
            Some(m) => m
                .iter()
                .filter(|(_, a)| **a != 0)
                .map(|(d, a)| Coin { denom: d.clone(), amount: *a })
                .collect(),
        }
    }

    fn transfer(&mut self, from: &str, to: &str, funds: &[Coin]) -> Result<(), ContractError> {
        for c in funds {
            let have = self.balances.get(from).and_then(|m| m.get(&c.denom)).copied().unwrap_or(0);
            if have < c.amount {
                return Err(ContractError::Std(cosmwasm_std::StdError::generic_err("insufficient funds")));
            }
            *self.balances.get_mut(from).unwrap().get_mut(&c.denom).unwrap() -= c.amount;
            *self.balances.entry(to.to_string()).or_default().entry(c.denom.clone()).or_default() += c.amount;
        }
        Ok(())
    }

    fn carry_out(&mut self, contract: &str, resp: Response) -> Result<(), ContractError> {
        for m in resp.messages {
            match m {
                CosmosMsg::BankSend { to_address, amount } => self.transfer(contract, &to_address, &amount)?,
                CosmosMsg::WasmExecute { contract_addr, msg, funds } => {
                    self.run(contract, &contract_addr, msg, &funds)?
                }
            }
        }
        Ok(())
    }

    fn run(&mut self, sender: &str, contract: &str, msg: ExecMsg, funds: &[Coin]) -> Result<(), ContractError> {
        self.transfer(sender, contract, funds)?;
        let funds: Vec<Coin> = funds.to_vec();
        let sender = sender.to_string();
        let mut inst = self.contracts.get(contract).unwrap().clone();
        let resp = match inst.code {
            Code::First => match msg {
                ExecMsg::Donate {} => {
                    assert!(!legacy::donate_overflows(&inst.store, &funds));
                    Some(legacy::donate(&mut inst.store, &sender, &funds)?)
                }
                ExecMsg::Withdraw {} => match legacy::withdraw(&inst.store, &sender)? {
                    ExecStep::Done(r) => Some(r),
                    ExecStep::QueryBalance(u) => {
                        let balance = self.query_all_balances(contract);
                        Some(use_balance(u, &balance))
                    }
                },
            },
            Code::Current => {
                if let ExecMsg::Donate {} = msg {
                    assert!(!donate_overflows(&inst.store, &funds));
                }
                match execute(&mut inst.store, &sender, &funds, msg)? {
                    ExecStep::Done(r) => Some(r),
                    ExecStep::QueryBalance(u) => {
                        let balance = self.query_all_balances(contract);
                        assert!(!balance_use_overflows(&u, &balance));
                        Some(use_balance(u, &balance))
                    }
                }
            }
        };
        self.contracts.insert(contract.to_string(), inst);
        if let Some(resp) = resp {
            self.carry_out(contract, resp)?;
        }
        Ok(())
    }

    fn execute_contract(&mut self, sender: &str, contract: &str, msg: ExecMsg, funds: &[Coin]) -> Result<(), ContractError> {
        let snapshot = self.clone();
        let r = self.run(sender, contract, msg, funds);
        if r.is_err() {
            *self = snapshot;
        }
        r
    }

    fn query_value(&self, contract: &str) -> Result<ValueResp, ContractError> {
        let inst = self.contracts.get(contract).unwrap();
        match inst.code {
            Code::First => legacy::value(&inst.store),
            Code::Current => query(&inst.store, QueryMsg::Value {}),
        }
    }
}

struct CountingContract(String);

impl CountingContract {
    fn addr(&self) -> &str {
        &self.0
    }

    fn instantiate(
        app: &mut App,
        code_id: u64,
        sender: &str,
        admin: Option<&str>,
        _label: &str,
        minimal_donation: Coin,
        parent: Option<Parent>,
    ) -> Result<CountingContract, ContractError> {
        let code = app.codes[(code_id - 1) as usize];
        let mut store = ContractStore::new();
        let sender = sender.to_string();
        match code {
            Code::First => {
                legacy::instantiate(&mut store, &sender, legacy::InstantiateMsg { minimal_donation })?;
            }
            Code::Current => {
                let check = check_parent(&parent);
                instantiate(&mut store, &sender, InstantiateMsg { minimal_donation, parent }, check)?;
            }
        }
        let addr = format!("contract{}", app.contracts.len());
        app.contracts.insert(addr.clone(), Instance { code, store, admin: admin.map(|a| a.to_string()) });
        Ok(CountingContract(addr))
    }

    fn donate(&self, app: &mut App, sender: &str, funds: &[Coin]) -> Result<(), ContractError> {
        app.execute_contract(sender, &self.0, ExecMsg::Donate {}, funds)
    }

    fn withdraw(&self, app: &mut App, sender: &str, _funds: &[Coin]) -> Result<(), ContractError> {
        app.execute_contract(sender, &self.0, ExecMsg::Withdraw {}, &[])
    }

    fn query_value(&self, app: &App) -> Result<ValueResp, ContractError> {
        app.query_value(&self.0)
    }

    fn migrate(app: &mut App, sender: &str, contract: &str, code_id: u64, parent: Option<Parent>) -> Result<CountingContract, ContractError> {
        let mut inst = app.contracts.get(contract).unwrap().clone();
        assert_eq!(inst.admin.as_deref(), Some(sender));
        let code = app.codes[(code_id - 1) as usize];
        assert_eq!(code, Code::Current);
        let check = check_parent(&parent);
        migrate(&mut inst.store, MigrateMsg { parent }, check)?;
        inst.code = code;
        app.contracts.insert(contract.to_string(), inst);
        Ok(CountingContract(contract.to_string()))
    }

    fn state(&self, app: &App) -> State {
        app.contracts.get(&self.0).unwrap().store.state.clone().unwrap()
    }
}

// Scenarios of the current release.

#[test]
fn query_value() {
    let mut app = App::new();
    let sender = "sender";
    let contract_id = app.store_code(Code::Current);
    let contract = CountingContract::instantiate(&mut app, contract_id, sender, None, "Counting contract", Coin::new(10, ATOM), None).unwrap();
    let resp = contract.query_value(&app).unwrap();
    assert_eq!(resp.value, 0);
}

#[test]
fn donate() {
    let mut app = App::new();
    let sender = "sender";
    let contract_id = app.store_code(Code::Current);
    let contract = CountingContract::instantiate(&mut app, contract_id, sender, None, "Counting contract", Coin::new(10, ATOM), None).unwrap();
    contract.donate(&mut app, sender, &[]).unwrap();
    let resp = contract.query_value(&app).unwrap();
    assert_eq!(resp.value, 0);
}

#[test]
fn donate_with_funds() {
    let sender = "sender";
    let mut app = App::new();
    app.init_balance(sender, coins(10, ATOM));
    let contract_id = app.store_code(Code::Current);
    let contract = CountingContract::instantiate(&mut app, contract_id, sender, None, "Counting contract", Coin::new(10, ATOM), None).unwrap();
    contract.donate(&mut app, sender, &coins(10, ATOM)).unwrap();
    let resp = contract.query_value(&app).unwrap();
    assert_eq!(resp.value, 1);
    assert_eq!(app.query_all_balances(sender), vec![]);
    assert_eq!(app.query_all_balances(contract.addr()), coins(10, ATOM));
}

#[test]
fn withdraw() {
    let owner = "owner";
    let sender1 = "sender1";
    let sender2 = "sender2";
    let mut app = App::new();
    app.init_balance(sender1, coins(10, ATOM));
    app.init_balance(sender2, coins(5, ATOM));
    let contract_id = app.store_code(Code::Current);
    let contract = CountingContract::instantiate(&mut app, contract_id, owner, None, "Counting contract", Coin::new(10, ATOM), None).unwrap();
    contract.donate(&mut app, sender1, &coins(10, ATOM)).unwrap();
    contract.donate(&mut app, sender2, &coins(5, ATOM)).unwrap();
    contract.withdraw(&mut app, owner, &[]).unwrap();
    assert_eq!(app.query_all_balances(owner), coins(15, ATOM));
    assert_eq!(app.query_all_balances(contract.addr()), vec![]);
    assert_eq!(app.query_all_balances(sender1), vec![]);
    assert_eq!(app.query_all_balances(sender2), vec![]);
}

#[test]
fn unauthorized_withdraw() {
    let owner = "owner";
    let member = "member";
    let mut app = App::new();
    let contract_id = app.store_code(Code::Current);
    let contract = CountingContract::instantiate(&mut app, contract_id, owner, None, "Counting contract", Coin::new(10, ATOM), None).unwrap();
    let err = contract.withdraw(&mut app, member, &[]).unwrap_err();
    assert_eq!(err, ContractError::Unauthorized { owner: owner.into() });
}

#[test]
fn migration() {
    let owner = "owner";
    let admin = "admin";
    let sender = "sender";
    let mut app = App::new();
    app.init_balance(sender, coins(10, ATOM));
    let old_code_id = app.store_code(Code::First);
    let new_code_id = app.store_code(Code::Current);
    let contract = CountingContract::instantiate(&mut app, old_code_id, owner, Some(admin), "Counting contract", Coin::new(10, ATOM), None).unwrap();
    contract.donate(&mut app, sender, &coins(10, ATOM)).unwrap();
    let contract = CountingContract::migrate(&mut app, admin, contract.addr(), new_code_id, None).unwrap();
    let resp = contract.query_value(&app).unwrap();
    assert_eq!(resp.value, 1);
    let state = contract.state(&app);
    assert_eq!(
        state,
        State { counter: 1, minimal_donation: Coin::new(10, ATOM), donating_parent: None }
    );
}

#[test]
fn migrate_no_update() {
    let owner = "owner";
    let admin = "admin";
    let mut app = App::new();
    let code_id = app.store_code(Code::Current);
    let contract = CountingContract::instantiate(&mut app, code_id, owner, Some(admin), "Counting contract", Coin::new(10, ATOM), None).unwrap();
    CountingContract::migrate(&mut app, admin, contract.addr(), code_id, None).unwrap();
}

#[test]
fn donating_parent() {
    let owner = "owner";
    let sender = "sender";
    let mut app = App::new();
    app.init_balance(sender, coins(20, ATOM));
    let code_id = app.store_code(Code::Current);
    let contract_parent = CountingContract::instantiate(&mut app, code_id, owner, None, "Counting contract", Coin::new(10, ATOM), None).unwrap();
    let contract = CountingContract::instantiate(
        &mut app,
        code_id,
        owner,
        None,
        "Counting contract",
        Coin::new(10, ATOM),
        Some(Parent { addr: contract_parent.addr().to_string(), donating_period: 2, part: Decimal::percent(10) }),
    )
    .unwrap();

    contract.donate(&mut app, sender, &coins(10, ATOM)).unwrap();
    assert_eq!(app.query_all_balances(sender), coins(10, ATOM));
    assert_eq!(app.query_all_balances(contract.addr()), coins(10, ATOM));
    assert_eq!(app.query_all_balances(contract_parent.addr()), vec![]);
    assert_eq!(app.query_all_balances(owner), vec![]);

    contract.donate(&mut app, sender, &coins(10, ATOM)).unwrap();
    assert_eq!(app.query_all_balances(sender), vec![]);
    assert_eq!(app.query_all_balances(contract.addr()), coins(18, ATOM));
    assert_eq!(app.query_all_balances(contract_parent.addr()), coins(2, ATOM));
    assert_eq!(app.query_all_balances(owner), vec![]);
}

// The same scenarios on the first release.

#[test]
fn tests_query_value() {
    let mut app = App::new();
    let sender = "sender";
    let contract_id = app.store_code(Code::First);
    let contract = CountingContract::instantiate(&mut app, contract_id, sender, None, "Counting contract", Coin::new(10, ATOM), None).unwrap();
    let resp = contract.query_value(&app).unwrap();
    assert_eq!(resp.value, 0);
}

#[test]
fn tests_donate() {
    let mut app = App::new();
    let sender = "sender";
    let contract_id = app.store_code(Code::First);
    let contract = CountingContract::instantiate(&mut app, contract_id, sender, None, "Counting contract", Coin::new(10, ATOM), None).unwrap();
    contract.donate(&mut app, sender, &[]).unwrap();
    let resp = contract.query_value(&app).unwrap();
    assert_eq!(resp.value, 0);
}

#[test]
fn tests_donate_with_funds() {
    let sender = "sender";
    let mut app = App::new();
    app.init_balance(sender, coins(10, ATOM));
    let contract_id = app.store_code(Code::First);
    let contract = CountingContract::instantiate(&mut app, contract_id, sender, None, "Counting contract", Coin::new(10, ATOM), None).unwrap();
    contract.donate(&mut app, sender, &coins(10, ATOM)).unwrap();
    let resp = contract.query_value(&app).unwrap();
    assert_eq!(resp.value, 1);
    assert_eq!(app.query_all_balances(sender), vec![]);
    assert_eq!(app.query_all_balances(contract.addr()), coins(10, ATOM));
}

#[test]
fn tests_withdraw() {
    let owner = "owner";
    let sender1 = "sender1";
    let sender2 = "sender2";
    let mut app = App::new();
    app.init_balance(sender1, coins(10, ATOM));
    app.init_balance(sender2, coins(5, ATOM));
    let contract_id = app.store_code(Code::First);
    let contract = CountingContract::instantiate(&mut app, contract_id, owner, None, "Counting contract", Coin::new(10, ATOM), None).unwrap();
    contract.donate(&mut app, sender1, &coins(10, ATOM)).unwrap();
    contract.donate(&mut app, sender2, &coins(5, ATOM)).unwrap();
    contract.withdraw(&mut app, owner, &[]).unwrap();
    assert_eq!(app.query_all_balances(owner), coins(15, ATOM));
    assert_eq!(app.query_all_balances(contract.addr()), vec![]);
    assert_eq!(app.query_all_balances(sender1), vec![]);
    assert_eq!(app.query_all_balances(sender2), vec![]);
}

#[test]
fn tests_unauthorized_withdraw() {
    let owner = "owner";
    let member = "member";
    let mut app = App::new();
    let contract_id = app.store_code(Code::First);
    let contract = CountingContract::instantiate(&mut app, contract_id, owner, None, "Counting contract", Coin::new(10, ATOM), None).unwrap();
    let err = contract.withdraw(&mut app, member, &[]).unwrap_err();
    assert_eq!(err, ContractError::Unauthorized { owner: owner.into() });
}
