use cryptdao::dao::{Dao, DaoError};
use cryptdao::proposals::{ProposalInput, ProposalKind};
use cryptdao::types::Config;
use cryptdao::TOTAL_SUPPLY;

#[test]
fn it_works() {
    let result = 2 + 2;
    assert_eq!(result, 4);
}

fn create_proposal(dao: &mut Dao, proposer: &str, weight: u128) -> Result<u64, DaoError> {
    let user = cryptdao::policy::UserInfo { account_id: proposer.to_string(), amount: weight };
    dao.add_proposal(
        ProposalInput {
            title: "test".to_string(),
            description: "test".to_string(),
            kind: ProposalKind::Transfer {
                token_id: None,
                receiver_id: "charlie.near".to_string(),
                amount: 100_000_000_000_000_000_000_000_000,
                msg: None,
            },
            proposal_start_time: 0,
            proposal_end_time: 0,
        },
        user,
        1_000_000_000_000_000_000_000_000,
        0,
    )
}

#[test]
fn test_basics() {
    let config = Config::test_config();
    let mut dao = Dao::new(config.name, config.purpose, vec!["bob.near".to_string()], 0);
    // bob.near signs the creation, so the whole token supply is his weight.
    let id = create_proposal(&mut dao, "bob.near", TOTAL_SUPPLY);
    assert_eq!(id, Ok(0));
    println!("test");
}
