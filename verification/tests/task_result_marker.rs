use golem_cli::app::build::task_result_marker::{
    AddMetadataMarkerHash, ComponentGeneratorMarkerHash, DependencyType, DependentComponent,
    LinkRpcMarkerHash, PackageName, TaskResult, TaskResultMarker, TaskResultMarkerHashInput,
};

fn blake3_of(s: &str) -> String {
    blake3::hash(s.as_bytes()).to_hex().to_string()
}

#[test]
fn dependency_type_names() {
    assert_eq!(DependencyType::DynamicWasmRpc.as_str(), "wasm-rpc");
    assert_eq!(DependencyType::StaticWasmRpc.as_str(), "static-wasm-rpc");
    assert_eq!(DependencyType::Wasm.as_str(), "wasm");
}

#[test]
fn package_name_text() {
    let p = PackageName { namespace: "golem".to_string(), name: "it".to_string(), version: None };
    assert_eq!(p.to_text(), "golem:it");
    let v = PackageName {
        namespace: "wasi".to_string(),
        name: "io".to_string(),
        version: Some("0.2.0".to_string()),
    };
    assert_eq!(v.to_text(), "wasi:io@0.2.0");
}

#[test]
fn hash_inputs_of_tasks() {
    let g = ComponentGeneratorMarkerHash {
        component_name: "app:comp".to_string(),
        generator_kind: "wit".to_string(),
    };
    assert_eq!(g.hash_input().unwrap(), "app:comp-wit");
    assert_eq!(g.id().unwrap(), None);
    let l = LinkRpcMarkerHash::new(
        "app:comp".to_string(),
        &vec![
            DependentComponent { name: "app:a".to_string(), dep_type: DependencyType::DynamicWasmRpc },
            DependentComponent { name: "app:b".to_string(), dep_type: DependencyType::Wasm },
        ],
    );
    assert_eq!(l.hash_input().unwrap(), "app:comp#app:a#wasm-rpc,app:b#wasm");
    assert_eq!(l.id().unwrap(), Some("app:comp".to_string()));
    let m = AddMetadataMarkerHash {
        component_name: "app:comp".to_string(),
        root_package_name: PackageName {
            namespace: "app".to_string(),
            name: "comp".to_string(),
            version: None,
        },
    };
    assert_eq!(m.hash_input().unwrap(), "app:comp#app:comp");
}

#[test]
fn marker_hashes_kind_and_input() {
    let g = ComponentGeneratorMarkerHash {
        component_name: "c".to_string(),
        generator_kind: "k".to_string(),
    };
    let marker = TaskResultMarker::new(&g).unwrap();
    assert_eq!(marker.kind, "ComponentGeneratorMarkerHash");
    assert_eq!(marker.hex_hash, blake3_of("ComponentGeneratorMarkerHashc-k"));
    assert_eq!(marker.marker_file_name, marker.hex_hash);
    assert_eq!(marker.hex_hash.len(), 64);
    let l = LinkRpcMarkerHash::new("c".to_string(), &vec![]);
    let marker = TaskResultMarker::new(&l).unwrap();
    assert_eq!(marker.hex_hash, blake3_of("RpcLinkMarkerHashc#"));
    assert_eq!(marker.marker_file_name, blake3_of("RpcLinkMarkerHashc"));
}

#[test]
fn marker_up_to_date_after_successful_run_only() {
    let g = ComponentGeneratorMarkerHash {
        component_name: "c".to_string(),
        generator_kind: "k".to_string(),
    };
    let fresh = TaskResultMarker::new(&g).unwrap();
    assert!(!fresh.is_up_to_date());
    assert!(!fresh.must_remove_marker_file(false));
    assert!(fresh.must_remove_marker_file(true));
    let record = fresh.success();
    assert!(record.success);
    assert_eq!(record.kind.as_deref(), Some("ComponentGeneratorMarkerHash"));
    let again = TaskResultMarker::new(&g).unwrap().with_previous_result(Some(record));
    assert!(again.is_up_to_date());
    assert!(!again.must_remove_marker_file(true));
    let failed = again.failure();
    assert!(!failed.success);
    let after_failure = TaskResultMarker::new(&g).unwrap().with_previous_result(Some(failed));
    assert!(!after_failure.is_up_to_date());
}

#[test]
fn marker_stale_after_input_change() {
    let old = ComponentGeneratorMarkerHash {
        component_name: "c".to_string(),
        generator_kind: "k1".to_string(),
    };
    let record = TaskResultMarker::new(&old).unwrap().success();
    let new = ComponentGeneratorMarkerHash {
        component_name: "c".to_string(),
        generator_kind: "k2".to_string(),
    };
    let marker = TaskResultMarker::new(&new).unwrap().with_previous_result(Some(record));
    assert!(!marker.is_up_to_date());
}

#[test]
fn marker_result_records_outcome() {
    let g = ComponentGeneratorMarkerHash {
        component_name: "c".to_string(),
        generator_kind: "k".to_string(),
    };
    let (record, result) = TaskResultMarker::new(&g).unwrap().result::<u32, String>(Err("x".to_string()));
    assert!(!record.success);
    assert_eq!(result, Err("x".to_string()));
    let manual = TaskResult {
        kind: None,
        id: None,
        hash_input: None,
        hash_hex: blake3_of("ComponentGeneratorMarkerHashc-k"),
        success: true,
    };
    assert!(TaskResultMarker::new(&g).unwrap().with_previous_result(Some(manual)).is_up_to_date());
}

#[test]
fn a_changed_input_under_the_same_id_is_not_up_to_date() {
    let link = |deps: Vec<DependentComponent>| LinkRpcMarkerHash::new("app:comp".to_string(), &deps);
    let first = TaskResultMarker::new(&link(vec![DependentComponent {
        name: "app:a".to_string(),
        dep_type: DependencyType::DynamicWasmRpc,
    }]))
    .unwrap();
    let second = TaskResultMarker::new(&link(vec![DependentComponent {
        name: "app:a".to_string(),
        dep_type: DependencyType::StaticWasmRpc,
    }]))
    .unwrap();
    assert_eq!(first.marker_file_name, second.marker_file_name);
    let record = first.success();
    let second = second.with_previous_result(Some(record));
    assert!(!second.is_up_to_date());
    assert!(second.must_remove_marker_file(true));
}

#[test]
fn link_dependencies_form_an_ordered_set() {
    let dep = |name: &str, dep_type| DependentComponent { name: name.to_string(), dep_type };
    let l = LinkRpcMarkerHash::new(
        "app:comp".to_string(),
        &vec![
            dep("app:b", DependencyType::Wasm),
            dep("app:a", DependencyType::StaticWasmRpc),
            dep("app:b", DependencyType::DynamicWasmRpc),
            dep("app:a", DependencyType::StaticWasmRpc),
        ],
    );
    assert_eq!(
        l.hash_input().unwrap(),
        "app:comp#app:a#static-wasm-rpc,app:b#wasm-rpc,app:b#wasm"
    );
}
