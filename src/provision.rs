use vstd::prelude::*;
use crate::command::{Invocation, ModeView, RunMode, SnowCommand, plain, texts};
use crate::config::{VmConfig, VmConfigResolved};
use crate::error::{Failure, SnowError};
use crate::number::{decimal, decimal_text};
use crate::text::{
    chars_of, contains, replace, replace_chars, starts_with, str_contains, str_starts_with,
    string_of, trim_start, trim_start_chars,
};
use crate::wrap;

verus! {

/// The message given where a host has no virtual-machine settings.
pub open spec fn no_vm_message(host: Seq<char>) -> Seq<char> {
    "VM settings are not configured for host \""@ + host + "\""@
}

/// The virtual-machine settings of `vm_configuration`, every value present.
pub fn vm_settings(vm_configuration: &str, vm: Option<VmConfig>) -> (r: Result<
    VmConfigResolved,
    SnowError,
>)
    ensures
        vm is None ==> (r matches Err(e) && e@ == Failure::SnowConfig(no_vm_message(vm_configuration@))),
        vm matches Some(v) ==> (v.id is Some && v.ip is Some && v.proxmox_host is Some
            && v.proxmox_image_store is Some && v.resize_disk_to is Some <==> r is Ok),
{
    match vm {
        Some(v) => VmConfigResolved::try_from(v),
        None => {
            let mut m = String::from_str("VM settings are not configured for host \"");
            m.append(vm_configuration);
            m.append("\"");
            Err(SnowError::SnowConfig(m))
        },
    }
}

/// The name of the image file of the machine numbered `id`.
pub open spec fn image_name(id: nat) -> Seq<char> {
    "vzdump-qemu-"@ + decimal(id) + "-2024_06_01-10_00_00.vma.zst"@
}

/// Builds the image of the machine `vm_configuration`, behind a progress display.
pub fn image_build_command(vm_configuration: &str) -> (r: Invocation)
    ensures
        r@ == plain(
            "nix"@,
            seq![
                "build"@,
                ".?submodules=1#"@ + "nixosConfigurations."@ + vm_configuration@
                    + ".config.formats.proxmox"@,
            ],
            ModeView::Progress(vm_configuration@),
        ),
{
    let mut attr = String::from_str("nixosConfigurations.");
    attr.append(vm_configuration);
    attr.append(".config.formats.proxmox");
    let target = wrap(attr.as_str(), true);
    assert(target@ =~= ".?submodules=1#"@ + "nixosConfigurations."@ + vm_configuration@
        + ".config.formats.proxmox"@);
    let mut args: Vec<String> = Vec::new();
    args.push(String::from_str("build"));
    args.push(target);
    let r = Invocation {
        command: SnowCommand::with_args(String::from_str("nix"), args, false),
        mode: RunMode::Progress(String::from_str(vm_configuration)),
    };
    assert(r@.command.args =~= seq![
        "build"@,
        ".?submodules=1#"@ + "nixosConfigurations."@ + vm_configuration@ + ".config.formats.proxmox"@,
    ]);
    r
}

fn image_file_name(id: usize) -> (r: String)
    ensures
        r@ == image_name(id as nat),
{
    let mut s = String::from_str("vzdump-qemu-");
    let n = decimal_text(id as u64);
    s.append(n.as_str());
    s.append("-2024_06_01-10_00_00.vma.zst");
    s
}

/// Where the image is copied to in the hypervisor's image store.
pub open spec fn stored_image(store: Seq<char>, id: nat) -> Seq<char> {
    store + "/"@ + image_name(id)
}

/// The path the image of `vm` is copied to; it is removed once imported.
pub fn stored_image_path(vm: &VmConfigResolved) -> (r: String)
    ensures
        r@ == stored_image(vm.proxmox_image_store@, vm.id as nat),
{
    let mut s = vm.proxmox_image_store.clone();
    s.append("/");
    let name = image_file_name(vm.id);
    s.append(name.as_str());
    s
}

/// Copies the built image of `vm_configuration` into the image store of `vm`.
pub fn copy_image_command(vm_configuration: &str, vm: &VmConfigResolved) -> (r: Invocation)
    ensures
        r@ == plain(
            "cp"@,
            seq![
                "result/vzdump-qemu-"@ + vm_configuration@ + ".vma.zst"@,
                stored_image(vm.proxmox_image_store@, vm.id as nat),
            ],
            ModeView::Verbose,
        ),
{
    let mut source = String::from_str("result/vzdump-qemu-");
    source.append(vm_configuration);
    source.append(".vma.zst");
    let mut args: Vec<String> = Vec::new();
    args.push(source);
    args.push(stored_image_path(vm));
    let r = Invocation {
        command: SnowCommand::with_args(String::from_str("cp"), args, false),
        mode: RunMode::Verbose,
    };
    assert(r@.command.args =~= seq![
        "result/vzdump-qemu-"@ + vm_configuration@ + ".vma.zst"@,
        stored_image(vm.proxmox_image_store@, vm.id as nat),
    ]);
    r
}

/// A command run over SSH on the hypervisor of `vm`.
fn on_hypervisor(vm: &VmConfigResolved, remote: String, mode: RunMode) -> (r: Invocation)
    ensures
        r@ == plain("ssh"@, seq![vm.proxmox_host@, remote@], mode@),
{
    let mut args: Vec<String> = Vec::new();
    args.push(vm.proxmox_host.clone());
    args.push(remote);
    let r = Invocation { command: SnowCommand::with_args(String::from_str("ssh"), args, false), mode };
    assert(r@.command.args =~= seq![vm.proxmox_host@, remote@]);
    r
}

/// The remote command that restores the machine from its image.
pub open spec fn restore_text(id: nat) -> Seq<char> {
    "qmrestore /mnt/pve/proxmox_images/template/iso/"@ + image_name(id) + " "@ + decimal(id)
        + " --unique true"@
}

/// Imports the image as the machine of `vm`, behind a progress display.
pub fn import_command(vm: &VmConfigResolved) -> (r: Invocation)
    ensures
        r@ == plain("ssh"@, seq![vm.proxmox_host@, restore_text(vm.id as nat)], ModeView::ProgressImport),
{
    let mut remote = String::from_str("qmrestore /mnt/pve/proxmox_images/template/iso/");
    let name = image_file_name(vm.id);
    remote.append(name.as_str());
    remote.append(" ");
    let n = decimal_text(vm.id as u64);
    remote.append(n.as_str());
    remote.append(" --unique true");
    on_hypervisor(vm, remote, RunMode::ProgressImport)
}

/// Grows the disk of the machine of `vm` to its configured size.
pub fn resize_command(vm: &VmConfigResolved) -> (r: Invocation)
    ensures
        r@ == plain(
            "ssh"@,
            seq![
                vm.proxmox_host@,
                "qm disk resize "@ + decimal(vm.id as nat) + " virtio0 "@ + vm.resize_disk_to@,
            ],
            ModeView::Silent,
        ),
{
    let mut remote = String::from_str("qm disk resize ");
    let n = decimal_text(vm.id as u64);
    remote.append(n.as_str());
    remote.append(" virtio0 ");
    remote.append(vm.resize_disk_to.as_str());
    on_hypervisor(vm, remote, RunMode::Silent)
}

/// Starts the machine of `vm`.
pub fn start_command(vm: &VmConfigResolved) -> (r: Invocation)
    ensures
        r@ == plain("ssh"@, seq![vm.proxmox_host@, "qm start "@ + decimal(vm.id as nat)], ModeView::Silent),
{
    let remote = String::from_str("qm start ").concat(decimal_text(vm.id as u64).as_str());
    on_hypervisor(vm, remote, RunMode::Silent)
}

/// Reboots the machine of `vm`.
pub fn reboot_command(vm: &VmConfigResolved) -> (r: Invocation)
    ensures
        r@ == plain("ssh"@, seq![vm.proxmox_host@, "qm reboot "@ + decimal(vm.id as nat)], ModeView::Silent),
{
    let remote = String::from_str("qm reboot ").concat(decimal_text(vm.id as u64).as_str());
    on_hypervisor(vm, remote, RunMode::Silent)
}

/// Asks the machine of `vm` for its public host keys.
pub fn keyscan_command(vm: &VmConfigResolved) -> (r: Invocation)
    ensures
        r@ == plain("ssh-keyscan"@, seq![vm.ip@], ModeView::WithReturn),
{
    let mut args: Vec<String> = Vec::new();
    args.push(vm.ip.clone());
    let r = Invocation {
        command: SnowCommand::with_args(String::from_str("ssh-keyscan"), args, false),
        mode: RunMode::WithReturn,
    };
    assert(r@.command.args =~= seq![vm.ip@]);
    r
}

/// Logs into `target_host`, accepting its new key, and grows its root file system.
pub fn accept_key_command(target_host: &str) -> (r: Invocation)
    ensures
        r@ == plain(
            "ssh"@,
            seq!["-o"@, "StrictHostKeyChecking=accept-new"@, target_host@, "sudo"@, "resize2fs /dev/vda2"@],
            ModeView::Silent,
        ),
{
    let r = crate::command::invocation(
        "ssh",
        vec!["-o", "StrictHostKeyChecking=accept-new", target_host, "sudo", "resize2fs /dev/vda2"],
        false,
        RunMode::Silent,
    );
    assert(r@.command.args =~= seq![
        "-o"@,
        "StrictHostKeyChecking=accept-new"@,
        target_host@,
        "sudo"@,
        "resize2fs /dev/vda2"@,
    ]);
    r
}

/// Logs into `target_host`.
pub fn login_command(target_host: &str) -> (r: Invocation)
    ensures
        r@ == plain("ssh"@, seq![target_host@], ModeView::Silent),
{
    let v: Vec<&str> = vec![target_host];
    assert(v@ == seq![target_host]);
    let r = crate::command::invocation("ssh", v, false, RunMode::Silent);
    assert(r@.command.args =~= seq![target_host@]);
    r
}

/// Where the public host key of `vm_configuration` is kept.
pub fn public_key_path(vm_configuration: &str) -> (r: String)
    ensures
        r@ == "vms/keys/ssh_host_"@ + vm_configuration@ + "_ed25519_key.pub"@,
{
    let mut p = String::from_str("vms/keys/ssh_host_");
    p.append(vm_configuration);
    p.append("_ed25519_key.pub");
    p
}

/// A line without the carriage return that ends it, if any.
pub open spec fn without_cr(l: Seq<char>) -> Seq<char> {
    if l.len() > 0 && l.last() == '\r' {
        l.drop_last()
    } else {
        l
    }
}

/// How many characters of `s` come before its first line feed; its length where it
/// has none.
pub open spec fn line_end(s: Seq<char>) -> nat
    decreases s.len(),
{
    if s.len() == 0 || s[0] == '\n' {
        0
    } else {
        1 + line_end(s.drop_first())
    }
}

/// The lines of a text as `str::lines` yields them: split at each line feed, a
/// carriage return before it dropped, and no empty line after a final line feed.
pub open spec fn lines_of(s: Seq<char>) -> Seq<Seq<char>>
    decreases s.len(),
{
    if s.len() == 0 {
        Seq::empty()
    } else if line_end(s) < s.len() {
        seq![without_cr(s.take(line_end(s) as int))] + lines_of(s.skip(line_end(s) as int + 1))
    } else {
        seq![s]
    }
}

proof fn lemma_line_end(s: Seq<char>, k: int)
    requires
        0 <= k <= s.len(),
        forall|j: int| 0 <= j < k ==> s[j] != '\n',
        k < s.len() ==> s[k] == '\n',
    ensures
        line_end(s) == k,
    decreases k,
{
    if k > 0 {
        lemma_line_end(s.drop_first(), k - 1);
    }
}

fn copy_range(c: &Vec<char>, lo: usize, hi: usize) -> (r: Vec<char>)
    requires
        lo <= hi <= c.len(),
    ensures
        r@ == c@.subrange(lo as int, hi as int),
{
    let mut line: Vec<char> = Vec::new();
    let mut j: usize = lo;
    while j < hi
        invariant
            lo <= j <= hi <= c.len(),
            line@ == c@.subrange(lo as int, j as int),
        decreases hi - j,
    {
        line.push(c[j]);
        j = j + 1;
    }
    line
}

/// The key that a scan line reports: the line without the address, trimmed at the
/// front, followed by the machine's name.
pub open spec fn key_entry(line: Seq<char>, ip: Seq<char>, name: Seq<char>) -> Seq<char> {
    trim_start(replace(line, ip, Seq::empty())) + " "@ + name
}

/// The first of `ls` that begins with `ip` and holds an ed25519 key.
pub open spec fn first_key_line(ls: Seq<Seq<char>>, ip: Seq<char>) -> Option<Seq<char>>
    decreases ls.len(),
{
    if ls.len() == 0 {
        None
    } else if starts_with(ls[0], ip) && contains(ls[0], "ssh-ed25519"@) {
        Some(ls[0])
    } else {
        first_key_line(ls.drop_first(), ip)
    }
}

/// The lines of `s`, as `lines_of` says.
pub fn split_lines(s: &str) -> (r: Vec<String>)
    ensures
        texts(r@) == lines_of(s@),
{
    let c = chars_of(s);
    let mut r: Vec<String> = Vec::new();
    let mut start: usize = 0;
    let mut i: usize = 0;
    assert(c@.skip(0) =~= c@);
    while i < c.len()
        invariant
            c@ == s@,
            start <= i <= c.len(),
            forall|j: int| start <= j < i ==> c@[j] != '\n',
            texts(r@) + lines_of(c@.skip(start as int)) == lines_of(s@),
        decreases c.len() - i,
    {
        if c[i] == '\n' {
            let ghost rest = c@.skip(start as int);
            let ghost k = (i - start) as int;
            proof {
                assert forall|j: int| 0 <= j < k implies rest[j] != '\n' by {
                    assert(rest[j] == c@[start + j]);
                }
                lemma_line_end(rest, k);
            }
            let end: usize = if i > start && c[i - 1] == '\r' {
                i - 1
            } else {
                i
            };
            let line = copy_range(&c, start, end);
            assert(line@ =~= without_cr(rest.take(k)));
            assert(rest.skip(k + 1) =~= c@.skip(i + 1));
            let ghost before = r@;
            r.push(string_of(&line));
            assert(texts(r@) =~= texts(before).push(line@));
            assert(texts(r@) + lines_of(c@.skip(i + 1)) =~= texts(before) + lines_of(rest));
            start = i + 1;
        }
        i = i + 1;
    }
    let ghost rest = c@.skip(start as int);
    if start < c.len() {
        proof {
            assert forall|j: int| 0 <= j < rest.len() implies rest[j] != '\n' by {
                assert(rest[j] == c@[start + j]);
            }
            lemma_line_end(rest, rest.len() as int);
        }
        let line = copy_range(&c, start, c.len());
        assert(line@ =~= rest);
        let ghost before = r@;
        r.push(string_of(&line));
        assert(texts(r@) =~= texts(before).push(line@));
        assert(texts(r@) =~= texts(before) + lines_of(rest));
    } else {
        assert(rest =~= Seq::<char>::empty());
        assert(texts(r@) + lines_of(rest) =~= texts(r@));
    }
    r
}

/// The public key that a host-key scan reports for the machine at `ip`: from the
/// first line that begins with the address and holds an ed25519 key, the key entry
/// named after `vm_configuration`; none where no line does.
pub fn find_public_key(scan_output: &str, ip: &str, vm_configuration: &str) -> (r: Option<String>)
    requires
        ip@.len() > 0,
    ensures
        first_key_line(lines_of(scan_output@), ip@) matches Some(l) ==> (r matches Some(k) && k@
            == key_entry(l, ip@, vm_configuration@)),
        first_key_line(lines_of(scan_output@), ip@) is None ==> r is None,
{
    let lines = split_lines(scan_output);
    let ghost ls = texts(lines@);
    let mut i: usize = 0;
    assert(ls.skip(0) =~= ls);
    while i < lines.len()
        invariant
            i <= lines.len(),
            ls == texts(lines@),
            ls == lines_of(scan_output@),
            ip@.len() > 0,
            first_key_line(ls, ip@) == first_key_line(ls.skip(i as int), ip@),
        decreases lines.len() - i,
    {
        assert(ls.skip(i as int)[0] == lines@[i as int]@);
        assert(ls.skip(i as int).drop_first() =~= ls.skip(i + 1));
        let line = lines[i].as_str();
        if str_starts_with(line, ip) && str_contains(line, "ssh-ed25519") {
            let empty: Vec<char> = Vec::new();
            assert(empty@ =~= Seq::<char>::empty());
            let cut = replace_chars(&chars_of(line), &chars_of(ip), &empty);
            let mut key = string_of(&trim_start_chars(&cut));
            key.append(" ");
            key.append(vm_configuration);
            return Some(key);
        }
        i = i + 1;
    }
    assert(ls.skip(i as int) =~= Seq::<Seq<char>>::empty());
    None
}

} // verus!
