use infrasys::config::{AwsConfig, InfraConfig, KmsKeyConfig, RepoConfig, S3Config, SigningKeyConfig};
use infrasys::digest::sha512_hex;
use infrasys::error::InfraError;
use infrasys::infra::{check_signing_key_config, fill_output_urls, find_s3_config, record_stack, repo_settings};
use infrasys::root::{add_keys, add_keys_kms, check_root, create_root, sign_root};
use infrasys::s3::{
    bucket_outputs, format_prefix, grant_statement, initial_policy, merge_policy, stack_handle,
    stack_poll, upload_bucket, StackPoll,
};
use infrasys::shared::KeyRole;
use infrasys::threshold::parse_threshold;
use infrasys::tool::{tool_command, tool_outcome, ToolStep};

fn s(x: &str) -> String {
    x.to_string()
}

fn keys(n: usize) -> Vec<(String, String)> {
    (0..n).map(|i| (format!("key-{}", i), format!("us-west-{}", i + 1))).collect()
}

fn kms(key_id: Option<&str>, n: usize) -> SigningKeyConfig {
    SigningKeyConfig::Kms {
        key_id: key_id.map(s),
        config: Some(KmsKeyConfig { available_keys: keys(n) }),
    }
}

fn s3_config() -> S3Config {
    S3Config {
        region: Some(s("us-west-2")),
        s3_prefix: s("tuf"),
        vpc_endpoint_id: Some(s("vpce-123")),
        stack_arn: None,
        bucket_name: None,
    }
}

fn repo_config() -> RepoConfig {
    RepoConfig {
        root_role_url: None,
        root_role_sha512: None,
        signing_keys: Some(kms(None, 2)),
        root_keys: Some(kms(None, 3)),
        metadata_base_url: None,
        targets_url: None,
        file_hosting_config_name: Some(s("repo-bucket")),
        root_key_threshold: Some(s("2")),
        pub_key_threshold: Some(s("1")),
    }
}

fn aws_config() -> Option<AwsConfig> {
    Some(AwsConfig {
        regions: vec![s("us-west-2")],
        role: None,
        profile: None,
        s3: Some(vec![(s("other"), s3_config()), (s("repo-bucket"), s3_config())]),
    })
}

fn commands(steps: &[ToolStep]) -> Vec<(String, String)> {
    steps.iter().map(|t| (t.region.clone(), t.command.clone())).collect()
}

#[test]
fn prefix_without_slash_gets_one() {
    assert_eq!(format_prefix(&s("tuf")), "/tuf");
    assert_eq!(format_prefix(&s("")), "/");
}

#[test]
fn prefix_trailing_parts_are_kept() {
    assert_eq!(format_prefix(&s("/tuf")), "/tuf");
    assert_eq!(format_prefix(&s("/tuf/")), "/tuf/");
    assert_eq!(format_prefix(&s("/tuf/*")), "/tuf/*");
    assert_eq!(format_prefix(&s("tuf/")), "/tuf/");
}

#[test]
fn threshold_parsing() {
    assert_eq!(parse_threshold(&s("2")), Ok(2));
    assert_eq!(parse_threshold(&s("+3")), Ok(3));
    assert_eq!(parse_threshold(&s("007")), Ok(7));
    assert_eq!(parse_threshold(&s(&usize::MAX.to_string())), Ok(usize::MAX));
    for bad in ["", "+", "-1", "2a", " 2", "99999999999999999999999"] {
        assert_eq!(parse_threshold(&s(bad)), Err(InfraError::ParseInt { what: s(bad) }));
    }
}

#[test]
fn too_few_keys_is_invalid_threshold() {
    let mut key_id = None;
    let r = add_keys_kms(&keys(1), &KeyRole::Root, &s("2"), &s("root.json"), &mut key_id, &s("us-east-1"));
    assert_eq!(r, Err(InfraError::InvalidThreshold { threshold: s("2"), num_keys: 1 }));
    let r = add_keys_kms(&keys(1), &KeyRole::Publication, &s("2"), &s("root.json"), &mut key_id, &s("us-east-1"));
    assert_eq!(r, Err(InfraError::InvalidThreshold { threshold: s("2"), num_keys: 1 }));
    assert_eq!(key_id, None);
}

#[test]
fn unparsable_threshold_fails() {
    let mut key_id = None;
    let r = add_keys_kms(&keys(3), &KeyRole::Root, &s("two"), &s("root.json"), &mut key_id, &s("us-east-1"));
    assert_eq!(r, Err(InfraError::ParseInt { what: s("two") }));
}

#[test]
fn root_keys_are_registered() {
    let mut key_id = None;
    let r = add_keys_kms(&keys(3), &KeyRole::Root, &s("2"), &s("/r/root.json"), &mut key_id, &s("us-east-1"))
        .unwrap();
    assert_eq!(
        commands(&r),
        vec![
            (s("us-east-1"), s("root set-threshold '/r/root.json' root '2' ")),
            (s("us-west-1"), s("root add-key '/r/root.json' aws-kms:///'key-0' --role root")),
            (s("us-west-2"), s("root add-key '/r/root.json' aws-kms:///'key-1' --role root")),
            (s("us-west-3"), s("root add-key '/r/root.json' aws-kms:///'key-2' --role root")),
        ]
    );
    assert_eq!(key_id, None);
}

#[test]
fn publication_keys_are_registered_and_one_chosen() {
    let mut key_id = None;
    let r = add_keys_kms(&keys(3), &KeyRole::Publication, &s("2"), &s("root.json"), &mut key_id, &s("us-east-1"))
        .unwrap();
    assert_eq!(r.len(), 6);
    assert_eq!(r[0].command, "root set-threshold 'root.json' snapshot '2' ");
    assert_eq!(r[1].command, "root set-threshold 'root.json' targets '2' ");
    assert_eq!(r[2].command, "root set-threshold 'root.json' timestamp '2' ");
    assert_eq!(
        r[3].command,
        "root add-key 'root.json' aws-kms:///'key-0' --role snapshot --role targets --role timestamp"
    );
    assert_eq!(r[5].region, "us-west-3");
    assert_eq!(key_id, Some(s("key-0")));
}

#[test]
fn recorded_key_id_is_kept() {
    let mut key_id = Some(s("chosen"));
    let mut reversed = keys(3);
    reversed.reverse();
    for ks in [keys(3), reversed] {
        add_keys_kms(&ks, &KeyRole::Publication, &s("1"), &s("root.json"), &mut key_id, &s("us-east-1"))
            .unwrap();
        assert_eq!(key_id, Some(s("chosen")));
    }
    let mut first = None;
    add_keys_kms(&keys(2), &KeyRole::Publication, &s("1"), &s("root.json"), &mut first, &s("r")).unwrap();
    let mut again = keys(2);
    again.reverse();
    add_keys_kms(&again, &KeyRole::Publication, &s("1"), &s("root.json"), &mut first, &s("r")).unwrap();
    assert_eq!(first, Some(s("key-0")));
}

#[test]
fn no_publication_key_to_choose() {
    let mut key_id = None;
    let r = add_keys_kms(&keys(0), &KeyRole::Publication, &s("0"), &s("root.json"), &mut key_id, &s("r"));
    assert_eq!(r, Err(InfraError::KeyCreation));
    let r = add_keys_kms(&keys(0), &KeyRole::Root, &s("0"), &s("root.json"), &mut key_id, &s("r"));
    assert_eq!(commands(&r.unwrap()), vec![(s("r"), s("root set-threshold 'root.json' root '0' "))]);
}

#[test]
fn add_keys_by_kind() {
    let mut file = SigningKeyConfig::File { path: s("k.pem") };
    assert_eq!(add_keys(&mut file, &KeyRole::Root, &s("9"), &s("root.json"), &s("r")), Ok(vec![]));
    let mut ssm = SigningKeyConfig::Ssm { parameter: s("p") };
    assert_eq!(add_keys(&mut ssm, &KeyRole::Root, &s("9"), &s("root.json"), &s("r")), Ok(vec![]));
    let mut bare = SigningKeyConfig::Kms { key_id: None, config: None };
    assert_eq!(
        add_keys(&mut bare, &KeyRole::Root, &s("1"), &s("root.json"), &s("r")),
        Err(InfraError::MissingConfig { missing: s("config field for a kms key") })
    );
    let mut k = kms(None, 2);
    let r = add_keys(&mut k, &KeyRole::Publication, &s("2"), &s("root.json"), &s("r")).unwrap();
    assert_eq!(r.len(), 5);
    assert_eq!(k, kms(Some("key-0"), 2));
}

#[test]
fn signing_runs_per_root_key() {
    let r = sign_root(&kms(None, 2), &s("root.json")).unwrap();
    assert_eq!(
        commands(&r),
        vec![
            (s("us-west-1"), s("root sign 'root.json' -k aws-kms:///'key-0'")),
            (s("us-west-2"), s("root sign 'root.json' -k aws-kms:///'key-1'")),
        ]
    );
    assert_eq!(sign_root(&SigningKeyConfig::File { path: s("k") }, &s("root.json")), Ok(vec![]));
    assert_eq!(
        sign_root(&SigningKeyConfig::Kms { key_id: None, config: None }, &s("root.json")),
        Err(InfraError::MissingConfig { missing: s("KMS key details") })
    );
}

#[test]
fn root_document_is_started() {
    let r = create_root(&s("/roles/root.json"), &s("us-east-1"));
    assert_eq!(
        commands(&r),
        vec![
            (s("us-east-1"), s("root init '/roles/root.json'")),
            (s("us-east-1"), s("root expire '/roles/root.json' 'in 52 weeks'")),
        ]
    );
}

#[test]
fn existing_root_document_is_refused() {
    assert_eq!(check_root(&s("root.json"), false), Ok(()));
    assert_eq!(check_root(&s("root.json"), true), Err(InfraError::FileExists { path: s("root.json") }));
}

#[test]
fn tool_commands_are_split() {
    let step = ToolStep { region: s("eu-west-1"), command: s("root add-key '/a b/root.json' aws-kms:///'k1' --role root") };
    let c = tool_command(&step).unwrap();
    assert_eq!(c.region, "eu-west-1");
    assert_eq!(c.args, vec!["root", "add-key", "/a b/root.json", "aws-kms:///k1", "--role", "root"]);
    let bad = ToolStep { region: s("r"), command: s("root init 'open") };
    assert_eq!(tool_command(&bad), Err(InfraError::CommandSplit { command: s("root init 'open") }));
}

#[test]
fn tool_exit_is_judged() {
    let step = ToolStep { region: s("r"), command: s("root init 'x'") };
    assert_eq!(tool_outcome(&step, true, Some(0)), Ok(()));
    assert_eq!(
        tool_outcome(&step, false, Some(3)),
        Err(InfraError::TuftoolResult { command: s("root init 'x'"), code: Some(3) })
    );
}

#[test]
fn settings_are_resolved() {
    let st = repo_settings(&s("default"), &repo_config(), &aws_config()).unwrap();
    assert_eq!(st.stack_name, "repo-bucket");
    assert_eq!(st.s3_index, 1);
    assert_eq!(st.region, "us-west-2");
    assert_eq!(st.vpc_endpoint_id, "vpce-123");
    assert_eq!(st.prefix, "/tuf");
    assert_eq!(st.pub_key_threshold, "1");
    assert_eq!(st.root_key_threshold, "2");
}

#[test]
fn missing_settings_are_named() {
    let missing = |r: Result<_, InfraError>| match r {
        Err(InfraError::MissingConfig { missing }) => missing,
        _ => panic!("expected a missing field"),
    };
    let mut repo = repo_config();
    repo.file_hosting_config_name = None;
    assert_eq!(missing(repo_settings(&s("d"), &repo, &aws_config())), "file_hosting_config_name");
    assert_eq!(missing(repo_settings(&s("d"), &repo_config(), &None)), "aws");
    let mut repo = repo_config();
    repo.file_hosting_config_name = Some(s("nope"));
    assert_eq!(missing(repo_settings(&s("d"), &repo, &aws_config())), "aws.s3 config with name nope");
    let mut aws = aws_config();
    aws.as_mut().unwrap().s3.as_mut().unwrap()[1].1.region = None;
    assert_eq!(missing(repo_settings(&s("d"), &repo_config(), &aws)), "region for 'repo-bucket' s3 config");
    let mut aws = aws_config();
    aws.as_mut().unwrap().s3.as_mut().unwrap()[1].1.vpc_endpoint_id = None;
    assert_eq!(
        missing(repo_settings(&s("d"), &repo_config(), &aws)),
        "vpc_endpoint_id for 'repo-bucket' s3 config"
    );
    let mut repo = repo_config();
    repo.signing_keys = None;
    assert_eq!(missing(repo_settings(&s("d"), &repo, &aws_config())), "signing_keys for 'd' repo config");
    let mut repo = repo_config();
    repo.pub_key_threshold = None;
    assert_eq!(missing(repo_settings(&s("d"), &repo, &aws_config())), "pub_key_threshold for 'd' repo config");
    let mut repo = repo_config();
    repo.root_key_threshold = None;
    assert_eq!(missing(repo_settings(&s("d"), &repo, &aws_config())), "root_key_threshold for 'd' repo config");
    let mut repo = repo_config();
    repo.root_keys = Some(SigningKeyConfig::Kms { key_id: None, config: None });
    assert_eq!(missing(repo_settings(&s("d"), &repo, &aws_config())), "config field for a kms key");
}

#[test]
fn bucket_lookup_and_key_checks() {
    let list = aws_config().unwrap().s3.unwrap();
    assert_eq!(find_s3_config(&list, &s("other")), Some(0));
    assert_eq!(find_s3_config(&list, &s("missing")), None);
    assert_eq!(check_signing_key_config(&kms(None, 0)), Ok(()));
    assert_eq!(check_signing_key_config(&SigningKeyConfig::File { path: s("p") }), Ok(()));
}

#[test]
fn sha512_hex_of_known_text() {
    assert_eq!(
        sha512_hex(&b"abc".to_vec()),
        "ddaf35a193617abacc417349ae20413112e6fa4e89a97ea20a9eeee64b55d39a2192992a274fc1a836ba3c23a3feebbd454d4423643ce80e2a9ac94fa54ca49f"
    );
}

#[test]
fn output_urls_are_filled() {
    let mut repo = repo_config();
    let data = b"{\"signed\": {}}".to_vec();
    fill_output_urls(&mut repo, &s("https://bucket.example.com"), &s("/tuf"), &data).unwrap();
    assert_eq!(repo.metadata_base_url, Some(s("https://bucket.example.com/tuf/metadata/")));
    assert_eq!(repo.targets_url, Some(s("https://bucket.example.com/tuf/targets/")));
    assert_eq!(repo.root_role_url, Some(s("https://bucket.example.com/tuf/root.json")));
    assert_eq!(repo.root_role_sha512, Some(sha512_hex(&data)));
    assert_eq!(repo.root_role_sha512.as_ref().unwrap().len(), 128);
}

#[test]
fn output_urls_are_normalized() {
    let mut repo = repo_config();
    fill_output_urls(&mut repo, &s("HTTPS://Bucket.Example.COM"), &s("/tuf"), &vec![]).unwrap();
    assert_eq!(repo.metadata_base_url, Some(s("https://bucket.example.com/tuf/metadata/")));
    assert_eq!(repo.root_role_url, Some(s("https://bucket.example.com/tuf/root.json")));
}

#[test]
fn output_urls_are_not_overwritten() {
    let mut repo = repo_config();
    repo.metadata_base_url = Some(s("https://kept.example.com/metadata/"));
    fill_output_urls(&mut repo, &s("https://bucket.example.com"), &s("/tuf"), &vec![1]).unwrap();
    let once = repo.clone();
    assert_eq!(repo.metadata_base_url, Some(s("https://kept.example.com/metadata/")));
    fill_output_urls(&mut repo, &s("https://other.example.com"), &s("/x"), &vec![2]).unwrap();
    assert_eq!(repo, once);
}

#[test]
fn bad_bucket_url_fails() {
    let mut repo = repo_config();
    assert_eq!(
        fill_output_urls(&mut repo, &s("not a url"), &s("/tuf"), &vec![]),
        Err(InfraError::ParseUrl { input: s("not a url") })
    );
    assert_eq!(repo.metadata_base_url, None);
}

#[test]
fn stack_status_and_outputs() {
    assert_eq!(stack_poll(&s("CREATE_COMPLETE")), StackPoll::Ready);
    assert_eq!(stack_poll(&s("CREATE_IN_PROGRESS")), StackPoll::Wait);
    assert_eq!(stack_poll(&s("ROLLBACK_COMPLETE")), StackPoll::Failed);
    assert_eq!(stack_poll(&s("CREATE_FAILED")), StackPoll::Failed);
    assert_eq!(stack_handle(&Some(s("arn:1")), &s("st")), Ok(s("arn:1")));
    assert_eq!(
        stack_handle(&None, &s("st")),
        Err(InfraError::ParseResponse { what: s("stack_id"), resource_name: s("st") })
    );
    assert_eq!(
        bucket_outputs(&vec![Some(s("b")), Some(s("https://b")), None], &s("st")),
        Ok((s("b"), s("https://b")))
    );
    assert_eq!(
        bucket_outputs(&vec![Some(s("b"))], &s("st")),
        Err(InfraError::ParseResponse { what: s("outputs"), resource_name: s("st") })
    );
    assert_eq!(
        bucket_outputs(&vec![None, Some(s("u"))], &s("st")),
        Err(InfraError::ParseResponse { what: s("outputs[0].output_value (bucket name)"), resource_name: s("st") })
    );
    assert_eq!(
        bucket_outputs(&vec![Some(s("b")), None], &s("st")),
        Err(InfraError::ParseResponse { what: s("outputs[1].output_value (bucket url)"), resource_name: s("st") })
    );
    assert_eq!(upload_bucket(&s("bucket"), &s("/tuf")), "bucket/tuf");
}

#[test]
fn initial_policy_cases() {
    let empty = initial_policy(&None, &s("b")).unwrap();
    let v: serde_json::Value = serde_json::from_str(&empty).unwrap();
    assert_eq!(v["Statement"].as_array().unwrap().len(), 0);
    assert_eq!(initial_policy(&Some(Some(s("{}"))), &s("b")), Ok(s("{}")));
    assert_eq!(
        initial_policy(&Some(None), &s("b")),
        Err(InfraError::ParseResponse { what: s("policy"), resource_name: s("b") })
    );
}

#[test]
fn policy_gains_one_statement() {
    let existing = r#"{"Version":"2008-10-17","Statement":[{"Effect":"Deny","Principal":"*","Action":"s3:DeleteObject","Resource":"arn:aws:s3:::example-bucket/*"}]}"#;
    let before: serde_json::Value = serde_json::from_str(existing).unwrap();
    let merged = merge_policy(&s(existing), &s("example-bucket"), &s("/tuf"), &s("vpce-123")).unwrap();
    let after: serde_json::Value = serde_json::from_str(&merged).unwrap();
    let list = after["Statement"].as_array().unwrap();
    assert_eq!(list.len(), 2);
    assert_eq!(list[0], before["Statement"][0]);
    let grant: serde_json::Value =
        serde_json::from_str(&grant_statement(&s("example-bucket"), &s("/tuf"), &s("vpce-123"))).unwrap();
    assert_eq!(list[1], grant);
    assert_eq!(list[1]["Effect"], "Allow");
    assert_eq!(list[1]["Action"], "s3:GetObject");
    assert_eq!(list[1]["Resource"], "arn:aws:s3:::example-bucket/tuf/*");
    assert_eq!(list[1]["Condition"]["StringEquals"]["aws:sourceVpce"], "vpce-123");
    assert_eq!(after["Version"], "2008-10-17");
}

#[test]
fn policy_from_nothing() {
    let base = initial_policy(&None, &s("b")).unwrap();
    let merged = merge_policy(&base, &s("b"), &s("/p"), &s("vpce-9")).unwrap();
    let after: serde_json::Value = serde_json::from_str(&merged).unwrap();
    assert_eq!(after["Statement"].as_array().unwrap().len(), 1);
    let grant: serde_json::Value =
        serde_json::from_str(&grant_statement(&s("b"), &s("/p"), &s("vpce-9"))).unwrap();
    assert_eq!(after["Statement"][0], grant);
}

#[test]
fn policy_errors() {
    assert_eq!(
        merge_policy(&s("{not json"), &s("b"), &s("/p"), &s("v")),
        Err(InfraError::InvalidJson { what: s("retrieved bucket policy for b") })
    );
    assert_eq!(
        merge_policy(&s("{\"Version\":\"1\"}"), &s("b"), &s("/p"), &s("v")),
        Err(InfraError::GetPolicyStatement { bucket_name: s("b") })
    );
    assert_eq!(
        merge_policy(&s("{\"Statement\": {}}"), &s("b"), &s("/p"), &s("v")),
        Err(InfraError::GetPolicyStatement { bucket_name: s("b") })
    );
    assert_eq!(
        merge_policy(&s("{}"), &s("b\"x"), &s("/p"), &s("v")),
        Err(InfraError::InvalidJson { what: s("new bucket policy for b\"x") })
    );
}

#[test]
fn whole_repository_run() {
    let mut config = InfraConfig {
        repo: Some(vec![(s("default"), repo_config())]),
        aws: aws_config(),
    };
    let path = s("/roles/root.json");
    let default_region = s("us-east-1");
    let (name, repo) = &mut config.repo.as_mut().unwrap()[0];
    let st = repo_settings(name, repo, &config.aws).unwrap();
    check_root(&path, false).unwrap();
    let arn = stack_handle(&Some(s("arn:aws:cloudformation:stack/1")), &st.stack_name).unwrap();
    assert_eq!(stack_poll(&s("CREATE_COMPLETE")), StackPoll::Ready);
    let (bucket, url) = bucket_outputs(&vec![Some(s("bkt")), Some(s("https://bkt.s3.amazonaws.com"))], &st.stack_name)
        .unwrap();
    let policy = merge_policy(&initial_policy(&None, &bucket).unwrap(), &bucket, &st.prefix, &st.vpc_endpoint_id)
        .unwrap();
    assert!(policy.contains("arn:aws:s3:::bkt/tuf/*"));
    let mut plan = create_root(&path, &default_region);
    let mut signing = repo.signing_keys.take().unwrap();
    let mut root_keys = repo.root_keys.take().unwrap();
    plan.extend(add_keys(&mut signing, &KeyRole::Publication, &st.pub_key_threshold, &path, &default_region).unwrap());
    plan.extend(add_keys(&mut root_keys, &KeyRole::Root, &st.root_key_threshold, &path, &default_region).unwrap());
    plan.extend(sign_root(&root_keys, &path).unwrap());
    assert_eq!(plan.len(), 2 + (3 + 2) + (1 + 3) + 3);
    assert!(plan.iter().any(|t| t.command == "root set-threshold '/roles/root.json' root '2' "));
    for step in &plan {
        assert!(tool_command(step).is_ok());
    }
    repo.signing_keys = Some(signing);
    repo.root_keys = Some(root_keys);
    let data = b"signed root".to_vec();
    fill_output_urls(repo, &url, &st.prefix, &data).unwrap();
    assert_eq!(repo.root_role_sha512, Some(sha512_hex(&data)));
    assert_eq!(repo.signing_keys, Some(kms(Some("key-0"), 2)));
    let s3 = &mut config.aws.as_mut().unwrap().s3.as_mut().unwrap()[st.s3_index].1;
    record_stack(s3, arn, bucket);
    assert_eq!(s3.stack_arn, Some(s("arn:aws:cloudformation:stack/1")));
    assert_eq!(s3.bucket_name, Some(s("bkt")));
    assert_eq!(s3.region, Some(s("us-west-2")));
}

#[test]
fn policy_keeps_many_statements_and_members() {
    let existing = r#"{"Version":"2012-10-17","Id":"p1","Statement":[{"Sid":"a"},{"Sid":"b"},{"Sid":"c"}]}"#;
    let merged = merge_policy(&s(existing), &s("bk"), &s("/x"), &s("vpce-1")).unwrap();
    let after: serde_json::Value = serde_json::from_str(&merged).unwrap();
    let list = after["Statement"].as_array().unwrap();
    assert_eq!(list.len(), 4);
    assert_eq!(list[0]["Sid"], "a");
    assert_eq!(list[1]["Sid"], "b");
    assert_eq!(list[2]["Sid"], "c");
    assert_eq!(list[3]["Resource"], "arn:aws:s3:::bk/x/*");
    assert_eq!(after["Id"], "p1");
    assert_eq!(after["Version"], "2012-10-17");
}
