use simple_server_utility::nginx::{config_block, generate_servers, push_config_block};

fn expected_block(name: &str, port: u16, node: &str) -> String {
    format!(
        r#"
server {{
	listen 80;
	listen 443 ssl;
	server_name {NAME}.node-{NODE}.simplestation.org;

	location / {{
		proxy_pass http://5.161.216.140:{PORT};
		include /etc/nginx/proxy_params;
		add_header 'Access-Control-Allow-Origin' '*';
}}

	ssl_certificate /etc/letsencrypt/live/{NAME}.node-{NODE}.simplestation.org/fullchain.pem; # managed by Certbot
	ssl_certificate_key /etc/letsencrypt/live/{NAME}.node-{NODE}.simplestation.org/privkey.pem; # managed by Certbot
}}
			"#,
        NAME = name,
        PORT = port,
        NODE = node
    )
}

#[test]
fn block_of_one_server() {
    assert_eq!(config_block("panel", 8080, "alpha"), expected_block("panel", 8080, "alpha"));
    assert_eq!(config_block("", 0, ""), expected_block("", 0, ""));
    assert_eq!(config_block("wiki", 65535, "n-2"), expected_block("wiki", 65535, "n-2"));
    let block = config_block("panel", 8080, "alpha");
    assert!(block.contains("\tserver_name panel.node-alpha.simplestation.org;\n"));
    assert!(block.contains("\t\tproxy_pass http://5.161.216.140:8080;\n"));
    assert!(block.starts_with("\nserver {\n\tlisten 80;\n"));
    assert!(block.ends_with("privkey.pem; # managed by Certbot\n}\n\t\t\t"));
}

#[test]
fn block_is_appended() {
    let mut out = "# generated\n".to_string();
    push_config_block(&mut out, "panel", 25565, "alpha");
    assert_eq!(out, format!("# generated\n{}", expected_block("panel", 25565, "alpha")));
}

#[test]
fn blocks_follow_the_order_of_the_servers() {
    let servers = vec![("b".to_string(), 2u16), ("a".to_string(), 1), ("c".to_string(), 3)];
    let output = generate_servers("alpha", &servers);
    let expected = format!(
        "{}{}{}",
        expected_block("b", 2, "alpha"),
        expected_block("a", 1, "alpha"),
        expected_block("c", 3, "alpha")
    );
    assert_eq!(output, expected);
    assert_eq!(generate_servers("alpha", &vec![]), "");
}

#[test]
fn repeated_name_is_written_twice() {
    let servers = vec![("a".to_string(), 1u16), ("a".to_string(), 2)];
    let output = generate_servers("alpha", &servers);
    assert_eq!(
        output,
        format!("{}{}", expected_block("a", 1, "alpha"), expected_block("a", 2, "alpha"))
    );
}
