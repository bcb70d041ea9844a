use mnml_virt_docker::docker::{
    collect_rows, compose_is_array, is_daemon_offline, list_compose_services, ndjson_lines,
    parse_ecr_url, ComposeService, Container, Image, Network, Volume, COMPOSE_ARRAY_ERROR,
};

fn field(v: &serde_json::Value, k: &str) -> String {
    v.get(k).and_then(|x| x.as_str()).unwrap_or("").to_string()
}

fn container_of(v: &serde_json::Value) -> Container {
    Container {
        id: field(v, "ID"),
        image: field(v, "Image"),
        names: field(v, "Names"),
        status: field(v, "Status"),
        state: field(v, "State"),
        ports: field(v, "Ports"),
        running_for: field(v, "RunningFor"),
        command: field(v, "Command"),
        created_at: field(v, "CreatedAt"),
    }
}

fn image_of(v: &serde_json::Value) -> Image {
    Image {
        id: field(v, "ID"),
        repository: field(v, "Repository"),
        tag: field(v, "Tag"),
        size: field(v, "Size"),
        created_since: field(v, "CreatedSince"),
        created_at: field(v, "CreatedAt"),
        digest: field(v, "Digest"),
    }
}

fn volume_of(v: &serde_json::Value) -> Volume {
    Volume {
        name: field(v, "Name"),
        driver: field(v, "Driver"),
        mountpoint: field(v, "Mountpoint"),
        scope: field(v, "Scope"),
    }
}

fn network_of(v: &serde_json::Value) -> Network {
    Network {
        id: field(v, "ID"),
        name: field(v, "Name"),
        driver: field(v, "Driver"),
        scope: field(v, "Scope"),
        created_at: field(v, "CreatedAt"),
    }
}

fn service_of(v: &serde_json::Value) -> ComposeService {
    ComposeService {
        name: field(v, "Name"),
        service: field(v, "Service"),
        state: field(v, "State"),
        status: field(v, "Status"),
        image: field(v, "Image"),
        project: field(v, "Project"),
    }
}

/// Frames newline-delimited JSON and decodes each frame into an object.
fn parse_ndjson<T>(bytes: &[u8], f: fn(&serde_json::Value) -> T) -> Result<Vec<T>, String> {
    let lines = ndjson_lines(bytes)?;
    let decoded: Vec<Option<T>> = lines
        .iter()
        .map(|l| {
            serde_json::from_str::<serde_json::Value>(&l.text)
                .ok()
                .filter(|v| v.is_object())
                .map(|v| f(&v))
        })
        .collect();
    collect_rows(&lines, decoded)
}

fn parse_compose_ps(bytes: &[u8]) -> Result<Vec<ComposeService>, String> {
    if compose_is_array(bytes) {
        let arr: Vec<serde_json::Value> =
            serde_json::from_slice(bytes).map_err(|_| COMPOSE_ARRAY_ERROR.to_string())?;
        Ok(arr.iter().map(service_of).collect())
    } else {
        parse_ndjson(bytes, service_of)
    }
}

#[test]
fn parses_container_ndjson() {
    let s = r#"{"ID":"abc1234def56","Image":"redis:7","Names":"redis","Status":"Up 2 hours","State":"running","Ports":"6379/tcp","RunningFor":"2 hours ago","Command":"redis-server","CreatedAt":"2026-06-07 12:00:00 +0000 UTC"}
{"ID":"99887766aabb","Image":"postgres:16","Names":"pg","Status":"Exited (0)","State":"exited","Ports":"","RunningFor":"3 days ago","Command":"postgres","CreatedAt":"2026-06-04 09:00:00 +0000 UTC"}
"#;
    let out: Vec<Container> = parse_ndjson(s.as_bytes(), container_of).unwrap();
    assert_eq!(out.len(), 2);
    assert_eq!(out[0].short_id(), "abc1234def56");
    assert!(out[0].is_running());
    assert!(!out[1].is_running());
    assert_eq!(out[1].image, "postgres:16");
}

#[test]
fn parses_image_ndjson_and_repo_tag() {
    let s = r#"{"ID":"sha256:0123456789abcdef","Repository":"redis","Tag":"7","Size":"110MB","CreatedSince":"3 weeks ago","CreatedAt":"2026-05-17 ...","Digest":""}
{"ID":"abcabcabc","Repository":"<none>","Tag":"<none>","Size":"42MB","CreatedSince":"1 hour ago","CreatedAt":"2026-06-07 ...","Digest":""}
"#;
    let out: Vec<Image> = parse_ndjson(s.as_bytes(), image_of).unwrap();
    assert_eq!(out.len(), 2);
    assert_eq!(out[0].short_id(), "0123456789ab");
    assert_eq!(out[0].repo_tag(), "redis:7");
    assert_eq!(out[1].repo_tag(), "<none>:<none>");
}

#[test]
fn parses_volume_ndjson() {
    let s = r#"{"Name":"pgdata","Driver":"local","Mountpoint":"/var/lib/docker/volumes/pgdata/_data","Scope":"local"}
{"Name":"redis","Driver":"local","Mountpoint":"/var/lib/docker/volumes/redis/_data","Scope":"local"}
"#;
    let out: Vec<Volume> = parse_ndjson(s.as_bytes(), volume_of).unwrap();
    assert_eq!(out.len(), 2);
    assert_eq!(out[0].name, "pgdata");
    assert_eq!(out[0].driver, "local");
}

#[test]
fn parses_network_ndjson() {
    let s = r#"{"ID":"abc111222333","Name":"bridge","Driver":"bridge","Scope":"local","CreatedAt":"2026-06-01 ..."}
{"ID":"def444555666","Name":"host","Driver":"host","Scope":"local","CreatedAt":"2026-06-01 ..."}
"#;
    let out: Vec<Network> = parse_ndjson(s.as_bytes(), network_of).unwrap();
    assert_eq!(out.len(), 2);
    assert_eq!(out[0].name, "bridge");
    assert_eq!(out[0].short_id(), "abc111222333");
}

#[test]
fn parses_compose_ps_json_array() {
    let s = r#"[
            {"Name":"myapp-web-1","Service":"web","State":"running","Status":"Up","Image":"myorg/web:latest","Project":"myapp"},
            {"Name":"myapp-db-1","Service":"db","State":"exited","Status":"Exited (0)","Image":"postgres:16","Project":"myapp"}
        ]"#;
    let out = parse_compose_ps(s.as_bytes()).unwrap();
    assert_eq!(out.len(), 2);
    assert_eq!(out[0].service, "web");
    assert_eq!(out[1].state, "exited");
}

#[test]
fn parses_compose_ps_ndjson_fallback() {
    let s = r#"{"Name":"x-web-1","Service":"web","State":"running","Status":"Up","Image":"x:latest","Project":"x"}
{"Name":"x-db-1","Service":"db","State":"running","Status":"Up","Image":"postgres:16","Project":"x"}
"#;
    let out = parse_compose_ps(s.as_bytes()).unwrap();
    assert_eq!(out.len(), 2);
}

#[test]
fn ecr_url_detected() {
    let got = parse_ecr_url("123456789012.dkr.ecr.us-east-1.amazonaws.com/my-app:v1.2.3");
    assert_eq!(
        got,
        Some(("123456789012".to_string(), "us-east-1".to_string()))
    );
}

#[test]
fn ecr_url_non_ecr_rejected() {
    assert_eq!(parse_ecr_url("redis:7"), None);
    assert_eq!(parse_ecr_url("docker.io/library/redis:7"), None);
    assert_eq!(
        parse_ecr_url("public.ecr.aws/lts/ubuntu:22.04"),
        None,
        "ECR Public is a different surface (public.ecr.aws/...)"
    );
}

#[test]
fn ecr_url_malformed_rejected() {
    assert_eq!(
        parse_ecr_url("123456789012.dkr.ecr.us-east-1.amazonaws/my-app"),
        None
    );
    assert_eq!(
        parse_ecr_url("notanaccount.dkr.ecr.us-east-1.amazonaws.com/my-app"),
        None
    );
    assert_eq!(parse_ecr_url(""), None);
}

#[test]
fn daemon_offline_marker_sniff() {
    let s = "Cannot connect to the Docker daemon at unix:///var/run/docker.sock. Is the docker daemon running?";
    assert!(is_daemon_offline(s));
    assert!(!is_daemon_offline("some unrelated docker error"));
}

#[test]
fn compose_listing_command() {
    let args = list_compose_services("/p/compose.yaml");
    assert_eq!(args, vec!["compose", "-f", "/p/compose.yaml", "ps", "--format", "json"]);
}
