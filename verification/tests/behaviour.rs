use git_patch::behaviour::GitPatchExchangeProtocol;

#[test]
fn protocol_name_is_fixed() {
    assert_eq!(GitPatchExchangeProtocol.protocol_name(), "/git-patch/0.1");
}
