use shipcat::kvmap::KvMap;
use shipcat::manifest::{ManifestDefaults, ManifestOverrides, ManifestSource};

fn kv(pairs: &[(&str, &str)]) -> KvMap {
    let mut m = KvMap::new();
    for (k, v) in pairs {
        m.insert((*k).into(), (*v).into());
    }
    m
}

#[test]
fn merge() {
    let a = ManifestDefaults {
        image_prefix: Option::Some("alpha".into()),
        chart: Option::None,
        replica_count: Option::Some(1),
        env: {
            let mut env = KvMap::new();
            env.insert("a".into(), "default-a".into());
            env.insert("b".into(), "default-b".into());
            env
        },
    };
    let b = ManifestDefaults {
        image_prefix: Option::Some("beta".into()),
        chart: Option::Some("default".into()),
        replica_count: None,
        env: {
            let mut env = KvMap::new();
            env.insert("b".into(), "override-b".into());
            env.insert("c".into(), "override-c".into());
            env
        },
    };
    let merged = a.merge(b);
    assert_eq!(merged.image_prefix, Option::Some("beta".into()));
    assert_eq!(merged.chart, Option::Some("default".into()));
    assert_eq!(merged.replica_count, Option::Some(1));

    let mut expected_env = KvMap::new();
    expected_env.insert("a".into(), "default-a".into());
    expected_env.insert("b".into(), "override-b".into());
    expected_env.insert("c".into(), "override-c".into());
    assert_eq!(merged.env, expected_env);
}

#[test]
fn merge_overrides_right_bias() {
    let base = ManifestOverrides {
        image: Some("base-image".into()),
        version: Some("1.0.0".into()),
        language: Some("rust".into()),
        labels: kv(&[("app", "one"), ("tier", "backend")]),
        ..Default::default()
    };
    let incoming = ManifestOverrides {
        version: Some("2.0.0".into()),
        labels: kv(&[("app", "two")]),
        ..Default::default()
    };
    let merged = base.merge(incoming);
    // Incoming wins where it specifies a value, the base stays elsewhere.
    assert_eq!(merged.image, Some("base-image".into()));
    assert_eq!(merged.version, Some("2.0.0".into()));
    assert_eq!(merged.language, Some("rust".into()));
    assert_eq!(merged.labels, kv(&[("app", "two"), ("tier", "backend")]));
    assert_eq!(merged.http_port, None);
}

#[test]
fn merge_source_defaults_stay_beneath() {
    let defaults = ManifestDefaults {
        image_prefix: Some("registry/global".into()),
        chart: Some("base-chart".into()),
        replica_count: Some(3),
        env: kv(&[("LOG", "info")]),
    };
    let src = ManifestSource {
        name: Some("webapp".into()),
        overrides: ManifestOverrides {
            defaults: ManifestDefaults {
                image_prefix: Some("registry/own".into()),
                env: kv(&[("LOG", "debug"), ("MODE", "fast")]),
                ..Default::default()
            },
            ..Default::default()
        },
        ..Default::default()
    };
    let merged = defaults.merge_source(src);
    // The source's own values stay; the defaults only fill gaps.
    assert_eq!(merged.overrides.defaults.image_prefix, Some("registry/own".into()));
    assert_eq!(merged.overrides.defaults.chart, Some("base-chart".into()));
    assert_eq!(merged.overrides.defaults.replica_count, Some(3));
    assert_eq!(
        merged.overrides.defaults.env,
        kv(&[("LOG", "debug"), ("MODE", "fast")])
    );
}

#[test]
fn merge_overrides_layering_order() {
    let src = ManifestSource {
        name: Some("svc".into()),
        ..Default::default()
    };
    let regional = ManifestOverrides {
        version: Some("1.1.0".into()),
        http_port: Some(8080),
        ..Default::default()
    };
    let environment = ManifestOverrides {
        version: Some("1.2.0".into()),
        ..Default::default()
    };
    let layered = src.merge_overrides(regional).merge_overrides(environment);
    // Later layers win field-by-field; untouched fields survive.
    assert_eq!(layered.overrides.version, Some("1.2.0".into()));
    assert_eq!(layered.overrides.http_port, Some(8080));
}
