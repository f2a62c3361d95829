//! Reverse-proxy configuration for the servers that run on a node.

use crate::text::{push_digits, spec_digits};
use vstd::prelude::*;
use vstd::string::StringExecFns;

verus! {

/// The host name under which the server `name` on the node `node` is
/// reached.
pub open spec fn spec_host(name: Seq<char>, node: Seq<char>) -> Seq<char> {
    name + ".node-"@ + node + ".simplestation.org"@
}

/// The configuration block of the server `name`, which listens on `port` on
/// the node `node`.
pub open spec fn spec_config_block(name: Seq<char>, port: u16, node: Seq<char>) -> Seq<char> {
    "\nserver {\n\tlisten 80;\n\tlisten 443 ssl;\n\tserver_name "@ + spec_host(name, node)
        + ";\n\n\tlocation / {\n\t\tproxy_pass http://5.161.216.140:"@ + spec_digits(port as nat)
        + ";\n\t\tinclude /etc/nginx/proxy_params;\n\t\tadd_header 'Access-Control-Allow-Origin' '*';\n}\n\n\tssl_certificate /etc/letsencrypt/live/"@
        + spec_host(name, node)
        + "/fullchain.pem; # managed by Certbot\n\tssl_certificate_key /etc/letsencrypt/live/"@
        + spec_host(name, node) + "/privkey.pem; # managed by Certbot\n}\n\t\t\t"@
}

/// The configuration blocks of `servers`, a list of names and ports, one
/// after the other in the order of the list.
pub open spec fn spec_config(node: Seq<char>, servers: Seq<(Seq<char>, u16)>) -> Seq<char>
    decreases servers.len(),
{
    if servers.len() == 0 {
        Seq::empty()
    } else {
        spec_config(node, servers.drop_last()) + spec_config_block(
            servers.last().0,
            servers.last().1,
            node,
        )
    }
}

/// Whether no name occurs twice in `servers`: the list then stands for a map
/// from names to ports, walked in some order.
pub open spec fn spec_names_distinct(servers: Seq<(Seq<char>, u16)>) -> bool {
    forall|i: int, j: int|
        0 <= i < j < servers.len() ==> (#[trigger] servers[i]).0 != (#[trigger] servers[j]).0
}

/// The views of a list of servers, in order.
pub open spec fn servers_view(servers: Seq<(String, u16)>) -> Seq<(Seq<char>, u16)> {
    servers.map_values(|s: (String, u16)| (s.0@, s.1))
}

/// Appends to `out` the host name under which the server `name` on the node
/// `node` is reached.
fn push_host(out: &mut String, name: &str, node: &str)
    ensures
        final(out)@ == old(out)@ + spec_host(name@, node@),
{
    out.append(name);
    out.append(".node-");
    out.append(node);
    out.append(".simplestation.org");
    proof {
        assert(out@ =~= old(out)@ + spec_host(name@, node@));
    }
}

/// Appends to `out` the configuration block of the server `name`, which
/// listens on `port` on the node `node`.
pub fn push_config_block(out: &mut String, name: &str, port: u16, node: &str)
    ensures
        final(out)@ == old(out)@ + spec_config_block(name@, port, node@),
{
    out.append("\nserver {\n\tlisten 80;\n\tlisten 443 ssl;\n\tserver_name ");
    push_host(out, name, node);
    out.append(";\n\n\tlocation / {\n\t\tproxy_pass http://5.161.216.140:");
    push_digits(out, port as u64);
    out.append(
        ";\n\t\tinclude /etc/nginx/proxy_params;\n\t\tadd_header 'Access-Control-Allow-Origin' '*';\n}\n\n\tssl_certificate /etc/letsencrypt/live/",
    );
    push_host(out, name, node);
    out.append("/fullchain.pem; # managed by Certbot\n\tssl_certificate_key /etc/letsencrypt/live/");
    push_host(out, name, node);
    out.append("/privkey.pem; # managed by Certbot\n}\n\t\t\t");
    proof {
        assert(out@ =~= old(out)@ + spec_config_block(name@, port, node@));
    }
}

/// The configuration block of the server `name`, which listens on `port` on
/// the node `node`: a server that answers on ports 80 and 443 under the
/// server's host name, passes every request on to `port`, and names the
/// certificate and the key of that host.
pub fn config_block(name: &str, port: u16, node: &str) -> (block: String)
    ensures
        block@ == spec_config_block(name@, port, node@),
{
    let mut block = String::new();
    push_config_block(&mut block, name, port, node);
    proof {
        assert(block@ =~= spec_config_block(name@, port, node@));
    }
    block
}

/// The configuration of all `servers` of the node `node`: their blocks, one
/// after the other in the order of the list.
///
/// The list is meant to hold each name once, see [`spec_names_distinct`],
/// but that is not asked for: a name that occurs twice is written twice,
/// once with each port.
pub fn generate_servers(node: &str, servers: &Vec<(String, u16)>) -> (output: String)
    ensures
        output@ == spec_config(node@, servers_view(servers@)),
{
    let ghost views = servers_view(servers@);
    let mut output = String::new();
    let mut i: usize = 0;
    proof {
        assert(views.subrange(0, 0) =~= Seq::<(Seq<char>, u16)>::empty());
    }
    while i < servers.len()
        invariant
            i <= servers.len(),
            views == servers_view(servers@),
            output@ == spec_config(node@, views.subrange(0, i as int)),
        decreases servers.len() - i,
    {
        proof {
            let upto = views.subrange(0, i + 1);
            assert(upto.drop_last() =~= views.subrange(0, i as int));
            assert(upto.last() == (servers@[i as int].0@, servers@[i as int].1));
        }
        push_config_block(&mut output, servers[i].0.as_str(), servers[i].1, node);
        i += 1;
    }
    proof {
        assert(views.subrange(0, i as int) =~= views);
    }
    output
}

} // verus!
