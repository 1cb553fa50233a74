use gas_engine::multisig::{State, UnknownActorCode};

#[test]
fn multisig_state_load_fails_for_every_code() {
    let code = "bafk2bzacec66wmb4kohuzvuxsulhcgiwju7sqkldwfpmmgw7dbbwgm5l2574q";
    match State::load(code) {
        Ok(_) => panic!("no multisig actor version is supported"),
        Err(e) => {
            assert_eq!(
                e,
                UnknownActorCode {
                    code: code.to_string()
                }
            );
            assert_eq!(
                e.message(),
                format!("Unknown multisig actor code {}", code)
            );
        }
    }
    assert!(State::load("").is_err());
}
