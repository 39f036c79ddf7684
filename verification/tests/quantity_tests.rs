use shipcat::errors::ValidationError;
use shipcat::quantity::{parse_cpu_millis, parse_mem_bytes};
use shipcat::resources::{ResourceRequirementsSource, ResourcesSource};

#[test]
fn cpu_quantities_parse_to_millicores() {
    assert_eq!(parse_cpu_millis("250m"), Some(250));
    assert_eq!(parse_cpu_millis("2"), Some(2000));
    assert_eq!(parse_cpu_millis("1000m"), Some(1000));
    assert_eq!(parse_cpu_millis("0"), Some(0));
}

#[test]
fn malformed_cpu_quantities_are_refused() {
    assert_eq!(parse_cpu_millis(""), None);
    assert_eq!(parse_cpu_millis("m"), None);
    assert_eq!(parse_cpu_millis("1.5"), None);
    assert_eq!(parse_cpu_millis("12x"), None);
    assert_eq!(parse_cpu_millis("-1"), None);
    assert_eq!(parse_cpu_millis("1234567890123456"), None); // too many digits
}

#[test]
fn memory_quantities_parse_to_bytes() {
    assert_eq!(parse_mem_bytes("1024"), Some(1024));
    assert_eq!(parse_mem_bytes("1Ki"), Some(1024));
    assert_eq!(parse_mem_bytes("512Mi"), Some(512 * 1048576));
    assert_eq!(parse_mem_bytes("2Gi"), Some(2 * 1073741824));
    assert_eq!(parse_mem_bytes("1K"), Some(1000));
    assert_eq!(parse_mem_bytes("3M"), Some(3_000_000));
    assert_eq!(parse_mem_bytes("1G"), Some(1_000_000_000));
}

#[test]
fn malformed_memory_quantities_are_refused() {
    assert_eq!(parse_mem_bytes(""), None);
    assert_eq!(parse_mem_bytes("Mi"), None);
    assert_eq!(parse_mem_bytes("1Ti"), None);
    assert_eq!(parse_mem_bytes("12.5Gi"), None);
}

fn side(cpu: &str, memory: &str) -> ResourcesSource {
    ResourcesSource { cpu: Some(cpu.into()), memory: Some(memory.into()) }
}

#[test]
fn resources_within_limits_build() {
    let rr = ResourceRequirementsSource {
        requests: side("100m", "256Mi"),
        limits: side("500m", "512Mi"),
    };
    let built = rr.build().unwrap();
    assert_eq!(built.requests.cpu, "100m".to_string());
    assert_eq!(built.limits.memory, "512Mi".to_string());
}

#[test]
fn requests_above_limits_are_refused() {
    let rr = ResourceRequirementsSource {
        requests: side("2", "256Mi"),
        limits: side("500m", "512Mi"),
    };
    assert_eq!(
        rr.build().unwrap_err(),
        ValidationError::RequestAboveLimit { resource: "cpu".into() }
    );
    let rr = ResourceRequirementsSource {
        requests: side("100m", "1Gi"),
        limits: side("500m", "512Mi"),
    };
    assert_eq!(
        rr.build().unwrap_err(),
        ValidationError::RequestAboveLimit { resource: "memory".into() }
    );
}

#[test]
fn missing_quantity_names_the_field() {
    let rr = ResourceRequirementsSource {
        requests: ResourcesSource { cpu: None, memory: Some("1Gi".into()) },
        limits: side("1", "1Gi"),
    };
    assert_eq!(
        rr.build().unwrap_err(),
        ValidationError::MissingRequiredField { field: "cpu".into() }
    );
}

#[test]
fn unparseable_quantity_names_field_and_value() {
    let rr = ResourceRequirementsSource {
        requests: side("fast", "1Gi"),
        limits: side("1", "1Gi"),
    };
    assert_eq!(
        rr.build().unwrap_err(),
        ValidationError::InvalidQuantity { field: "requests.cpu".into(), value: "fast".into() }
    );
}
