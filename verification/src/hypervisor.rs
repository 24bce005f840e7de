//! Virtual machines at the command line: what is run for each command, with
//! which arguments and under which words, and what `virsh` answers when it
//! lists the machines. The caller runs the programs and prints.

use crate::errors::{validation_error, Failure};
use crate::models::query::views;
use crate::text::{
    decimal_digits, is_word, is_word_of, join_from, joined, lines, same_text, separated,
    split_whitespace, text_lines, texts, trim, trimmed, u64_to_text, words,
};
use vstd::prelude::*;

verus! {

/// A machine as `virsh list` names it.
#[derive(Debug, PartialEq, Eq)]
pub struct VmInfo {
    pub name: String,
    pub state: String,
    pub id: Option<String>,
    pub uuid: Option<String>,
}

/// What a `VmInfo` stands for.
pub struct Machine {
    pub name: Seq<char>,
    pub state: Seq<char>,
    pub id: Option<Seq<char>>,
    pub uuid: Option<Seq<char>>,
}

impl View for VmInfo {
    type V = Machine;

    open spec fn view(&self) -> Machine {
        Machine {
            name: self.name@,
            state: self.state@,
            id: match self.id {
                Some(text) => Some(text@),
                None => None,
            },
            uuid: match self.uuid {
                Some(text) => Some(text@),
                None => None,
            },
        }
    }
}

/// The machine that a line of the list tells of: the first word is its
/// identifier, the second its name, and the words behind them, with one
/// space between them, its state. A line of fewer than three words tells of
/// none.
pub open spec fn listed(line: Seq<char>) -> Option<Machine> {
    let parts = words(line);
    if parts.len() >= 3 {
        Some(
            Machine {
                name: parts[1],
                state: separated(parts, " "@, 2, parts.len() as int),
                id: Some(parts[0]),
                uuid: None,
            },
        )
    } else {
        None
    }
}

/// The machines that the first `n` lines tell of; the first two lines are
/// the head of the list and tell of none.
pub open spec fn listed_machines(list: Seq<Seq<char>>, n: int) -> Seq<Machine>
    decreases n,
{
    if n <= 2 {
        Seq::empty()
    } else {
        match listed(list[n - 1]) {
            Some(machine) => listed_machines(list, n - 1).push(machine),
            None => listed_machines(list, n - 1),
        }
    }
}

/// The machines that the output of `virsh list` tells of.
pub open spec fn virsh_machines(output: Seq<char>) -> Seq<Machine> {
    listed_machines(text_lines(output), text_lines(output).len() as int)
}

/// Reads the output of `virsh list`: a head of two lines, then one machine
/// on each line of three words or more.
pub fn parse_virsh_list(output: &str) -> (machines: Vec<VmInfo>)
    ensures
        views(machines@) == virsh_machines(output@),
{
    let list = lines(output);
    let mut machines: Vec<VmInfo> = Vec::new();
    let mut i: usize = 0;
    assert(views(machines@) =~= listed_machines(texts(list@), 0));
    while i < list.len()
        invariant
            i <= list.len(),
            views(machines@) == listed_machines(texts(list@), i as int),
        decreases list.len() - i,
    {
        assert(texts(list@)[i as int] == list@[i as int]@);
        if i >= 2 {
            let parts = split_whitespace(list[i].as_str());
            if parts.len() >= 3 {
                let ghost before = machines@;
                let machine = VmInfo {
                    name: parts[1].clone(),
                    state: join_from(&parts, " ", 2),
                    id: Some(parts[0].clone()),
                    uuid: None,
                };
                assert(texts(parts@)[0] == parts@[0]@);
                assert(texts(parts@)[1] == parts@[1]@);
                machines.push(machine);
                assert(views(machines@) =~= views(before).push(machine@));
            }
        }
        i += 1;
    }
    machines
}

/// A command on virtual machines.
#[derive(Debug, PartialEq, Eq)]
pub enum VmCommands {
    List { hypervisor: String, format: String },
    Start { name: String, hypervisor: String },
    Stop { name: String, hypervisor: String, force: bool },
    Create {
        name: String,
        hypervisor: String,
        vcpus: u32,
        memory: u32,
        disk: u32,
        os_variant: Option<String>,
        iso: Option<String>,
        network: String,
    },
    Delete { name: String, hypervisor: String, remove_storage: bool, yes: bool },
    Status { name: String, hypervisor: String, format: String },
    Reboot { name: String, hypervisor: String, force: bool },
}

/// The programs that manage virtual machines.
#[derive(Debug, Clone, Copy, PartialEq, Eq)]
pub enum Hypervisor {
    /// KVM and QEMU, through `virsh`.
    Virsh,
    /// VirtualBox, through `VBoxManage`.
    VirtualBox,
}

/// The hypervisor that a word names, where it names one that is supported.
pub open spec fn hypervisor_of(word: Seq<char>) -> Option<Hypervisor> {
    if word == "kvm"@ || word == "qemu"@ {
        Some(Hypervisor::Virsh)
    } else if word == "virtualbox"@ {
        Some(Hypervisor::VirtualBox)
    } else {
        None
    }
}

/// What is shown once the steps of a plan are done.
#[derive(Debug, Clone, Copy, PartialEq, Eq)]
pub enum Shown {
    /// Nothing but the words of success.
    Nothing,
    /// What the last program printed.
    Output,
    /// The machines that `parse_virsh_list` reads from what it printed.
    Machines,
    /// The details of one machine, read from what it printed.
    Details,
}

/// What a step needs for the plan to go on.
#[derive(Debug, Clone, Copy, PartialEq, Eq)]
pub enum Needed {
    /// The program must run and succeed; else the plan ends with the failure
    /// and what the program reports.
    Success,
    /// The program must run; whether it succeeds is not asked.
    Start,
    /// Nothing: the program is run for what it may do.
    Nothing,
}

/// One program to run.
#[derive(Debug, PartialEq, Eq)]
pub struct Step {
    pub program: String,
    pub arguments: Vec<String>,
    pub needed: Needed,
}

/// What a `Step` stands for.
pub struct StepPlan {
    pub program: Seq<char>,
    pub arguments: Seq<Seq<char>>,
    pub needed: Needed,
}

impl View for Step {
    type V = StepPlan;

    open spec fn view(&self) -> StepPlan {
        StepPlan {
            program: self.program@,
            arguments: texts(self.arguments@),
            needed: self.needed,
        }
    }
}

/// What is done for a command: the words that announce it, the programs to
/// run in order, whether to wait a second before the last of them, the words
/// of success, the words before the report of a program that failed, and
/// what is shown.
#[derive(Debug, PartialEq, Eq)]
pub struct VmPlan {
    pub announcement: String,
    pub steps: Vec<Step>,
    pub pause_before_last: bool,
    pub success: Option<String>,
    pub failure: String,
    pub shown: Shown,
}

/// What a `VmPlan` stands for.
pub struct Plan {
    pub announcement: Seq<char>,
    pub steps: Seq<StepPlan>,
    pub pause_before_last: bool,
    pub success: Option<Seq<char>>,
    pub failure: Seq<char>,
    pub shown: Shown,
}

impl View for VmPlan {
    type V = Plan;

    open spec fn view(&self) -> Plan {
        Plan {
            announcement: self.announcement@,
            steps: views(self.steps@),
            pause_before_last: self.pause_before_last,
            success: match self.success {
                Some(text) => Some(text@),
                None => None,
            },
            failure: self.failure@,
            shown: self.shown,
        }
    }
}

/// The program of a hypervisor.
pub open spec fn program_of(hypervisor: Hypervisor) -> Seq<char> {
    match hypervisor {
        Hypervisor::Virsh => "virsh"@,
        Hypervisor::VirtualBox => "VBoxManage"@,
    }
}

/// The step that runs the program of `hypervisor` and must succeed.
pub open spec fn run(hypervisor: Hypervisor, arguments: Seq<Seq<char>>) -> StepPlan {
    StepPlan { program: program_of(hypervisor), arguments: arguments, needed: Needed::Success }
}

/// The step that runs the program of `hypervisor`, whether or not it
/// succeeds.
pub open spec fn launch(hypervisor: Hypervisor, arguments: Seq<Seq<char>>) -> StepPlan {
    StepPlan { program: program_of(hypervisor), arguments: arguments, needed: Needed::Start }
}

/// The step that runs the program of `hypervisor` for what it may do.
pub open spec fn attempt(hypervisor: Hypervisor, arguments: Seq<Seq<char>>) -> StepPlan {
    StepPlan { program: program_of(hypervisor), arguments: arguments, needed: Needed::Nothing }
}

/// The words of a machine in a message: `VM '`, the name, `'`.
pub open spec fn named(name: Seq<char>) -> Seq<char> {
    "VM '"@ + name + "'"@
}

/// The plan of one step that reports success in words.
pub open spec fn acted(
    announcement: Seq<char>,
    step: StepPlan,
    success: Seq<char>,
    failure: Seq<char>,
) -> Plan {
    Plan {
        announcement: announcement,
        steps: seq![step],
        pause_before_last: false,
        success: Some(success),
        failure: failure,
        shown: Shown::Nothing,
    }
}

/// The plan of one step that shows what the program printed.
pub open spec fn asked(
    announcement: Seq<char>,
    step: StepPlan,
    failure: Seq<char>,
    shown: Shown,
) -> Plan {
    Plan {
        announcement: announcement,
        steps: seq![step],
        pause_before_last: false,
        success: None,
        failure: failure,
        shown: shown,
    }
}

/// What is shown of a program's output under `format`: the output itself
/// under `pretty`, else what is read from it.
pub open spec fn shown_under(format: Seq<char>, read: Shown) -> Shown {
    if format == "pretty"@ {
        Shown::Output
    } else {
        read
    }
}

/// The plan that lists the machines.
pub open spec fn list_plan(hypervisor: Hypervisor, format: Seq<char>) -> Plan {
    match hypervisor {
        Hypervisor::Virsh => asked(
            "Listing VMs via virsh..."@,
            run(hypervisor, seq!["list"@, "--all"@]),
            "virsh command failed: "@,
            shown_under(format, Shown::Machines),
        ),
        Hypervisor::VirtualBox => asked(
            "Listing VMs via VBoxManage..."@,
            run(hypervisor, seq!["list"@, "vms"@, "--long"@]),
            "VBoxManage command failed: "@,
            Shown::Output,
        ),
    }
}

/// The plan that tells the state of a machine.
pub open spec fn status_plan(hypervisor: Hypervisor, name: Seq<char>, format: Seq<char>) -> Plan {
    match hypervisor {
        Hypervisor::Virsh => asked(
            "Getting status for "@ + named(name) + "..."@,
            run(hypervisor, seq!["dominfo"@, name]),
            "virsh command failed: "@,
            shown_under(format, Shown::Details),
        ),
        Hypervisor::VirtualBox => asked(
            "Getting status for "@ + named(name) + "..."@,
            run(hypervisor, seq!["showvminfo"@, name]),
            "VBoxManage command failed: "@,
            Shown::Output,
        ),
    }
}

/// The plan that starts a machine.
pub open spec fn start_plan(hypervisor: Hypervisor, name: Seq<char>) -> Plan {
    match hypervisor {
        Hypervisor::Virsh => acted(
            "Starting "@ + named(name) + " via virsh..."@,
            run(hypervisor, seq!["start"@, name]),
            named(name) + " started successfully"@,
            "Failed to start VM: "@,
        ),
        Hypervisor::VirtualBox => acted(
            "Starting "@ + named(name) + " via VBoxManage..."@,
            run(hypervisor, seq!["startvm"@, name, "--type"@, "headless"@]),
            named(name) + " started successfully"@,
            "Failed to start VM: "@,
        ),
    }
}

/// The plan that stops a machine: it is asked to shut down, or, under
/// `force`, switched off.
pub open spec fn stop_plan(hypervisor: Hypervisor, name: Seq<char>, force: bool) -> Plan {
    let begun = if force {
        "Forcing stop of "@
    } else {
        "Shutting down "@
    };
    let done = if force {
        " stopped successfully"@
    } else {
        " shutdown initiated successfully"@
    };
    match hypervisor {
        Hypervisor::Virsh => acted(
            begun + named(name) + " via virsh..."@,
            run(
                hypervisor,
                seq![
                    if force {
                        "destroy"@
                    } else {
                        "shutdown"@
                    },
                    name,
                ],
            ),
            named(name) + done,
            "Failed to stop VM: "@,
        ),
        Hypervisor::VirtualBox => acted(
            begun + named(name) + " via VBoxManage..."@,
            run(
                hypervisor,
                seq![
                    "controlvm"@,
                    name,
                    if force {
                        "poweroff"@
                    } else {
                        "acpipowerbutton"@
                    },
                ],
            ),
            named(name) + done,
            "Failed to stop VM: "@,
        ),
    }
}

/// The plan that starts a machine anew: it is asked to reboot, or, under
/// `force`, reset.
pub open spec fn reboot_plan(hypervisor: Hypervisor, name: Seq<char>, force: bool) -> Plan {
    let begun = if force {
        "Resetting "@
    } else {
        "Rebooting "@
    };
    let done = if force {
        " reset successfully"@
    } else {
        " reboot initiated successfully"@
    };
    match hypervisor {
        Hypervisor::Virsh => acted(
            begun + named(name) + "..."@,
            run(
                hypervisor,
                seq![
                    if force {
                        "reset"@
                    } else {
                        "reboot"@
                    },
                    name,
                ],
            ),
            named(name) + done,
            "Failed to reboot VM: "@,
        ),
        Hypervisor::VirtualBox => acted(
            begun + named(name) + "..."@,
            run(
                hypervisor,
                seq![
                    "controlvm"@,
                    name,
                    if force {
                        "reset"@
                    } else {
                        "acpireboot"@
                    },
                ],
            ),
            named(name) + done,
            "Failed to reboot VM: "@,
        ),
    }
}

/// The plan that deletes a machine: it is switched off, whether or not it
/// runs, and then removed, with its storage where that is asked.
pub open spec fn delete_plan(hypervisor: Hypervisor, name: Seq<char>, remove_storage: bool) -> Plan {
    match hypervisor {
        Hypervisor::Virsh => Plan {
            announcement: "Deleting "@ + named(name) + " via virsh..."@,
            steps: seq![
                attempt(hypervisor, seq!["destroy"@, name]),
                run(
                    hypervisor,
                    if remove_storage {
                        seq!["undefine"@, name, "--remove-all-storage"@]
                    } else {
                        seq!["undefine"@, name]
                    },
                ),
            ],
            pause_before_last: false,
            success: Some(named(name) + " deleted successfully"@),
            failure: "Failed to delete VM: "@,
            shown: Shown::Nothing,
        },
        Hypervisor::VirtualBox => Plan {
            announcement: "Deleting "@ + named(name) + " via VBoxManage..."@,
            steps: seq![
                attempt(hypervisor, seq!["controlvm"@, name, "poweroff"@]),
                run(
                    hypervisor,
                    if remove_storage {
                        seq!["unregistervm"@, name, "--delete"@]
                    } else {
                        seq!["unregistervm"@, name]
                    },
                ),
            ],
            pause_before_last: true,
            success: Some(named(name) + " deleted successfully"@),
            failure: "Failed to delete VM: "@,
            shown: Shown::Nothing,
        },
    }
}

/// What `virt-install` is told of the system to install, where it is told.
pub open spec fn system_arguments(os_variant: Option<String>) -> Seq<Seq<char>> {
    match os_variant {
        Some(os) => seq!["--os-variant"@, os@],
        None => Seq::empty(),
    }
}

/// What `virt-install` is told to install from: the image, or the network.
pub open spec fn media_arguments(iso: Option<String>) -> Seq<Seq<char>> {
    match iso {
        Some(path) => seq!["--cdrom"@, path@],
        None => seq!["--pxe"@],
    }
}

/// What `virt-install` is told of the network: nothing for `none`, the
/// default network for `default`, else the bridge of that name.
pub open spec fn network_arguments(network: Seq<char>) -> Seq<Seq<char>> {
    if network == "none"@ {
        Seq::empty()
    } else if network == "default"@ {
        seq!["--network"@, "network=default"@]
    } else {
        seq!["--network"@, "bridge="@ + network]
    }
}

/// What describes a new machine.
pub struct NewMachine {
    pub name: Seq<char>,
    pub vcpus: nat,
    pub memory: nat,
    pub disk: nat,
    pub os_variant: Option<String>,
    pub iso: Option<String>,
    pub network: Seq<char>,
}

/// The arguments of `virt-install` for a new machine.
pub open spec fn install_arguments(machine: NewMachine) -> Seq<Seq<char>> {
    seq![
        "--name"@,
        machine.name,
        "--vcpus"@,
        decimal_digits(machine.vcpus),
        "--memory"@,
        decimal_digits(machine.memory),
        "--disk"@,
        "size="@ + decimal_digits(machine.disk),
    ] + system_arguments(machine.os_variant) + media_arguments(machine.iso) + network_arguments(
        machine.network,
    ) + seq!["--graphics"@, "vnc,listen=0.0.0.0"@, "--noautoconsole"@]
}

/// Where the disk of a new machine of VirtualBox is kept.
pub open spec fn disk_path(name: Seq<char>) -> Seq<char> {
    "/var/lib/virtualbox/"@ + name + ".vdi"@
}

/// The plan that creates a machine. Under `virsh` it is one run of
/// `virt-install`, whose output is shown. Under VirtualBox the machine is
/// registered, which must succeed, and then given its processors and memory,
/// a disk of the asked size in megabytes, a controller, and the disk on it;
/// of these it is only asked that they run.
pub open spec fn create_plan(hypervisor: Hypervisor, machine: NewMachine) -> Plan {
    match hypervisor {
        Hypervisor::Virsh => Plan {
            announcement: "Creating "@ + named(machine.name) + " via virt-install..."@,
            steps: seq![
                StepPlan {
                    program: "virt-install"@,
                    arguments: install_arguments(machine),
                    needed: Needed::Success,
                },
            ],
            pause_before_last: false,
            success: Some(named(machine.name) + " created successfully"@),
            failure: "Failed to create VM: "@,
            shown: Shown::Output,
        },
        Hypervisor::VirtualBox => Plan {
            announcement: "Creating "@ + named(machine.name) + " via VBoxManage..."@,
            steps: seq![
                run(
                    hypervisor,
                    seq![
                        "createvm"@,
                        "--name"@,
                        machine.name,
                        "--ostype"@,
                        match machine.os_variant {
                            Some(os) => os@,
                            None => "Linux_64"@,
                        },
                        "--register"@,
                    ],
                ),
                launch(
                    hypervisor,
                    seq![
                        "modifyvm"@,
                        machine.name,
                        "--cpus"@,
                        decimal_digits(machine.vcpus),
                        "--memory"@,
                        decimal_digits(machine.memory),
                    ],
                ),
                launch(
                    hypervisor,
                    seq![
                        "createhd"@,
                        "--filename"@,
                        disk_path(machine.name),
                        "--size"@,
                        decimal_digits(machine.disk * 1024),
                    ],
                ),
                launch(
                    hypervisor,
                    seq![
                        "storagectl"@,
                        machine.name,
                        "--name"@,
                        "SATA"@,
                        "--add"@,
                        "sata"@,
                        "--controller"@,
                        "IntelAhci"@,
                    ],
                ),
                launch(
                    hypervisor,
                    seq![
                        "storageattach"@,
                        machine.name,
                        "--storagectl"@,
                        "SATA"@,
                        "--port"@,
                        "0"@,
                        "--device"@,
                        "0"@,
                        "--type"@,
                        "hdd"@,
                        "--medium"@,
                        disk_path(machine.name),
                    ],
                ),
            ],
            pause_before_last: false,
            success: Some(named(machine.name) + " created successfully"@),
            failure: "Failed to create VM: "@,
            shown: Shown::Nothing,
        },
    }
}

/// The word that names the hypervisor of a command.
pub open spec fn hypervisor_word(command: VmCommands) -> Seq<char> {
    match command {
        VmCommands::List { hypervisor, .. } => hypervisor@,
        VmCommands::Start { hypervisor, .. } => hypervisor@,
        VmCommands::Stop { hypervisor, .. } => hypervisor@,
        VmCommands::Create { hypervisor, .. } => hypervisor@,
        VmCommands::Delete { hypervisor, .. } => hypervisor@,
        VmCommands::Status { hypervisor, .. } => hypervisor@,
        VmCommands::Reboot { hypervisor, .. } => hypervisor@,
    }
}

/// The plan of a command under a hypervisor.
pub open spec fn command_plan(command: VmCommands, hypervisor: Hypervisor) -> Plan {
    match command {
        VmCommands::List { format, .. } => list_plan(hypervisor, format@),
        VmCommands::Start { name, .. } => start_plan(hypervisor, name@),
        VmCommands::Stop { name, force, .. } => stop_plan(hypervisor, name@, force),
        VmCommands::Create { name, vcpus, memory, disk, os_variant, iso, network, .. } => create_plan(
            hypervisor,
            NewMachine {
                name: name@,
                vcpus: vcpus as nat,
                memory: memory as nat,
                disk: disk as nat,
                os_variant: os_variant,
                iso: iso,
                network: network@,
            },
        ),
        VmCommands::Delete { name, remove_storage, .. } => delete_plan(
            hypervisor,
            name@,
            remove_storage,
        ),
        VmCommands::Status { name, format, .. } => status_plan(hypervisor, name@, format@),
        VmCommands::Reboot { name, force, .. } => reboot_plan(hypervisor, name@, force),
    }
}

/// What is done for a command, or the message for a hypervisor that is not
/// supported.
pub open spec fn vm_plan(command: VmCommands) -> Result<Plan, Seq<char>> {
    match hypervisor_of(hypervisor_word(command)) {
        Some(hypervisor) => Ok(command_plan(command, hypervisor)),
        None => Err("Unsupported hypervisor: "@ + hypervisor_word(command)),
    }
}

/// The question that is asked before a command is carried out, where one is
/// asked: before a machine is deleted, unless the command says yes already.
pub open spec fn question(command: VmCommands) -> Option<Seq<char>> {
    match command {
        VmCommands::Delete { name, yes, .. } => if yes {
            None
        } else {
            Some("Are you sure you want to delete "@ + named(name@) + "? [y/N]: "@)
        },
        _ => None,
    }
}

/// Whether an answer says yes: it is `y` or `Y`, with or without whitespace
/// around it.
pub open spec fn says_yes(answer: Seq<char>) -> bool {
    is_word(trimmed(answer), "y"@)
}

/// The hypervisor that a word names.
pub fn read_hypervisor(word: &str) -> (hypervisor: Option<Hypervisor>)
    ensures
        hypervisor == hypervisor_of(word@),
{
    if same_text(word, "kvm") || same_text(word, "qemu") {
        Some(Hypervisor::Virsh)
    } else if same_text(word, "virtualbox") {
        Some(Hypervisor::VirtualBox)
    } else {
        None
    }
}

/// The words of a machine in a message.
fn name_words(name: &str) -> (text: String)
    ensures
        text@ == named(name@),
{
    let mut text = joined("VM '", name);
    text.append("'");
    text
}

/// `before`, the words of the machine, `after`.
fn around(before: &str, name: &str, after: &str) -> (text: String)
    ensures
        text@ == before@ + named(name@) + after@,
{
    let mut text = joined(before, name_words(name).as_str());
    text.append(after);
    text
}

/// The list of the given words.
fn list_of(items: &[&str]) -> (list: Vec<String>)
    ensures
        texts(list@) == views(items@),
{
    let mut list: Vec<String> = Vec::new();
    let mut i: usize = 0;
    while i < items.len()
        invariant
            i <= items.len(),
            list.len() == i,
            forall|j: int| 0 <= j < i ==> list@[j]@ == items@[j]@,
        decreases items.len() - i,
    {
        list.push(items[i].to_owned());
        i += 1;
    }
    assert(texts(list@) =~= views(items@));
    list
}

/// Puts the given words behind the list.
fn extend_with(list: &mut Vec<String>, items: &[&str])
    ensures
        texts(final(list)@) == texts(old(list)@) + views(items@),
{
    let ghost before = list@;
    let mut i: usize = 0;
    while i < items.len()
        invariant
            i <= items.len(),
            list.len() == before.len() + i,
            forall|j: int| 0 <= j < before.len() ==> list@[j] == before[j],
            forall|j: int| 0 <= j < i ==> list@[before.len() + j]@ == items@[j]@,
        decreases items.len() - i,
    {
        list.push(items[i].to_owned());
        i += 1;
    }
    assert(texts(list@) =~= texts(before) + views(items@));
}

fn program_name(hypervisor: Hypervisor) -> (program: String)
    ensures
        program@ == program_of(hypervisor),
{
    match hypervisor {
        Hypervisor::Virsh => "virsh".to_owned(),
        Hypervisor::VirtualBox => "VBoxManage".to_owned(),
    }
}

fn step_of(hypervisor: Hypervisor, arguments: Vec<String>, needed: Needed) -> (step: Step)
    ensures
        step@ == (StepPlan {
            program: program_of(hypervisor),
            arguments: texts(arguments@),
            needed: needed,
        }),
{
    Step { program: program_name(hypervisor), arguments, needed }
}

fn one_step(step: Step) -> (steps: Vec<Step>)
    ensures
        views(steps@) == seq![step@],
{
    let mut steps: Vec<Step> = Vec::new();
    steps.push(step);
    assert(views(steps@) =~= seq![step@]);
    steps
}

fn acted_plan(announcement: String, step: Step, success: String, failure: &str) -> (plan: VmPlan)
    ensures
        plan@ == acted(announcement@, step@, success@, failure@),
{
    VmPlan {
        announcement,
        steps: one_step(step),
        pause_before_last: false,
        success: Some(success),
        failure: failure.to_owned(),
        shown: Shown::Nothing,
    }
}

fn asked_plan(announcement: String, step: Step, failure: &str, shown: Shown) -> (plan: VmPlan)
    ensures
        plan@ == asked(announcement@, step@, failure@, shown),
{
    VmPlan {
        announcement,
        steps: one_step(step),
        pause_before_last: false,
        success: None,
        failure: failure.to_owned(),
        shown,
    }
}

fn shown_for(format: &str, read: Shown) -> (shown: Shown)
    ensures
        shown == shown_under(format@, read),
{
    if same_text(format, "pretty") {
        Shown::Output
    } else {
        read
    }
}

fn plan_list(hypervisor: Hypervisor, format: &str) -> (plan: VmPlan)
    ensures
        plan@ == list_plan(hypervisor, format@),
{
    match hypervisor {
        Hypervisor::Virsh => {
            let words: [&str; 2] = ["list", "--all"];
            assert(views(words@) =~= seq!["list"@, "--all"@]);
            asked_plan(
                "Listing VMs via virsh...".to_owned(),
                step_of(hypervisor, list_of(&words), Needed::Success),
                "virsh command failed: ",
                shown_for(format, Shown::Machines),
            )
        },
        Hypervisor::VirtualBox => {
            let words: [&str; 3] = ["list", "vms", "--long"];
            assert(views(words@) =~= seq!["list"@, "vms"@, "--long"@]);
            asked_plan(
                "Listing VMs via VBoxManage...".to_owned(),
                step_of(hypervisor, list_of(&words), Needed::Success),
                "VBoxManage command failed: ",
                Shown::Output,
            )
        },
    }
}

fn plan_status(hypervisor: Hypervisor, name: &str, format: &str) -> (plan: VmPlan)
    ensures
        plan@ == status_plan(hypervisor, name@, format@),
{
    match hypervisor {
        Hypervisor::Virsh => {
            let words: [&str; 2] = ["dominfo", name];
            assert(views(words@) =~= seq!["dominfo"@, name@]);
            asked_plan(
                around("Getting status for ", name, "..."),
                step_of(hypervisor, list_of(&words), Needed::Success),
                "virsh command failed: ",
                shown_for(format, Shown::Details),
            )
        },
        Hypervisor::VirtualBox => {
            let words: [&str; 2] = ["showvminfo", name];
            assert(views(words@) =~= seq!["showvminfo"@, name@]);
            asked_plan(
                around("Getting status for ", name, "..."),
                step_of(hypervisor, list_of(&words), Needed::Success),
                "VBoxManage command failed: ",
                Shown::Output,
            )
        },
    }
}

fn plan_start(hypervisor: Hypervisor, name: &str) -> (plan: VmPlan)
    ensures
        plan@ == start_plan(hypervisor, name@),
{
    match hypervisor {
        Hypervisor::Virsh => {
            let words: [&str; 2] = ["start", name];
            assert(views(words@) =~= seq!["start"@, name@]);
            acted_plan(
                around("Starting ", name, " via virsh..."),
                step_of(hypervisor, list_of(&words), Needed::Success),
                joined(name_words(name).as_str(), " started successfully"),
                "Failed to start VM: ",
            )
        },
        Hypervisor::VirtualBox => {
            let words: [&str; 4] = ["startvm", name, "--type", "headless"];
            assert(views(words@) =~= seq!["startvm"@, name@, "--type"@, "headless"@]);
            acted_plan(
                around("Starting ", name, " via VBoxManage..."),
                step_of(hypervisor, list_of(&words), Needed::Success),
                joined(name_words(name).as_str(), " started successfully"),
                "Failed to start VM: ",
            )
        },
    }
}

fn plan_stop(hypervisor: Hypervisor, name: &str, force: bool) -> (plan: VmPlan)
    ensures
        plan@ == stop_plan(hypervisor, name@, force),
{
    let begun = if force {
        "Forcing stop of "
    } else {
        "Shutting down "
    };
    let done = if force {
        " stopped successfully"
    } else {
        " shutdown initiated successfully"
    };
    match hypervisor {
        Hypervisor::Virsh => {
            let action = if force {
                "destroy"
            } else {
                "shutdown"
            };
            let words: [&str; 2] = [action, name];
            assert(views(words@) =~= seq![action@, name@]);
            acted_plan(
                around(begun, name, " via virsh..."),
                step_of(hypervisor, list_of(&words), Needed::Success),
                joined(name_words(name).as_str(), done),
                "Failed to stop VM: ",
            )
        },
        Hypervisor::VirtualBox => {
            let action = if force {
                "poweroff"
            } else {
                "acpipowerbutton"
            };
            let words: [&str; 3] = ["controlvm", name, action];
            assert(views(words@) =~= seq!["controlvm"@, name@, action@]);
            acted_plan(
                around(begun, name, " via VBoxManage..."),
                step_of(hypervisor, list_of(&words), Needed::Success),
                joined(name_words(name).as_str(), done),
                "Failed to stop VM: ",
            )
        },
    }
}

fn plan_reboot(hypervisor: Hypervisor, name: &str, force: bool) -> (plan: VmPlan)
    ensures
        plan@ == reboot_plan(hypervisor, name@, force),
{
    let begun = if force {
        "Resetting "
    } else {
        "Rebooting "
    };
    let done = if force {
        " reset successfully"
    } else {
        " reboot initiated successfully"
    };
    match hypervisor {
        Hypervisor::Virsh => {
            let action = if force {
                "reset"
            } else {
                "reboot"
            };
            let words: [&str; 2] = [action, name];
            assert(views(words@) =~= seq![action@, name@]);
            acted_plan(
                around(begun, name, "..."),
                step_of(hypervisor, list_of(&words), Needed::Success),
                joined(name_words(name).as_str(), done),
                "Failed to reboot VM: ",
            )
        },
        Hypervisor::VirtualBox => {
            let action = if force {
                "reset"
            } else {
                "acpireboot"
            };
            let words: [&str; 3] = ["controlvm", name, action];
            assert(views(words@) =~= seq!["controlvm"@, name@, action@]);
            acted_plan(
                around(begun, name, "..."),
                step_of(hypervisor, list_of(&words), Needed::Success),
                joined(name_words(name).as_str(), done),
                "Failed to reboot VM: ",
            )
        },
    }
}

fn plan_delete(hypervisor: Hypervisor, name: &str, remove_storage: bool) -> (plan: VmPlan)
    ensures
        plan@ == delete_plan(hypervisor, name@, remove_storage),
{
    let (off, removal, flag, via, pause): (Vec<String>, &str, &str, &str, bool) = match hypervisor {
        Hypervisor::Virsh => {
            let words: [&str; 2] = ["destroy", name];
            assert(views(words@) =~= seq!["destroy"@, name@]);
            (list_of(&words), "undefine", "--remove-all-storage", " via virsh...", false)
        },
        Hypervisor::VirtualBox => {
            let words: [&str; 3] = ["controlvm", name, "poweroff"];
            assert(views(words@) =~= seq!["controlvm"@, name@, "poweroff"@]);
            (list_of(&words), "unregistervm", "--delete", " via VBoxManage...", true)
        },
    };
    let removed = if remove_storage {
        let words: [&str; 3] = [removal, name, flag];
        assert(views(words@) =~= seq![removal@, name@, flag@]);
        list_of(&words)
    } else {
        let words: [&str; 2] = [removal, name];
        assert(views(words@) =~= seq![removal@, name@]);
        list_of(&words)
    };
    let mut steps: Vec<Step> = Vec::new();
    let first = step_of(hypervisor, off, Needed::Nothing);
    let second = step_of(hypervisor, removed, Needed::Success);
    steps.push(first);
    steps.push(second);
    assert(views(steps@) =~= seq![first@, second@]);
    let plan = VmPlan {
        announcement: around("Deleting ", name, via),
        steps,
        pause_before_last: pause,
        success: Some(joined(name_words(name).as_str(), " deleted successfully")),
        failure: "Failed to delete VM: ".to_owned(),
        shown: Shown::Nothing,
    };
    assert(plan@.steps =~= delete_plan(hypervisor, name@, remove_storage).steps);
    plan
}

/// What describes a new machine.
pub struct MachineOrder<'a> {
    pub name: &'a str,
    pub vcpus: u32,
    pub memory: u32,
    pub disk: u32,
    pub os_variant: &'a Option<String>,
    pub iso: &'a Option<String>,
    pub network: &'a str,
}

impl<'a> View for MachineOrder<'a> {
    type V = NewMachine;

    open spec fn view(&self) -> NewMachine {
        NewMachine {
            name: self.name@,
            vcpus: self.vcpus as nat,
            memory: self.memory as nat,
            disk: self.disk as nat,
            os_variant: *self.os_variant,
            iso: *self.iso,
            network: self.network@,
        }
    }
}

fn install_words(order: &MachineOrder) -> (list: Vec<String>)
    ensures
        texts(list@) == install_arguments(order@),
{
    let vcpus = u64_to_text(order.vcpus as u64);
    let memory = u64_to_text(order.memory as u64);
    let size = joined("size=", u64_to_text(order.disk as u64).as_str());
    let head: [&str; 8] = [
        "--name",
        order.name,
        "--vcpus",
        vcpus.as_str(),
        "--memory",
        memory.as_str(),
        "--disk",
        size.as_str(),
    ];
    assert(views(head@) =~= seq![
        "--name"@,
        order.name@,
        "--vcpus"@,
        decimal_digits(order.vcpus as nat),
        "--memory"@,
        decimal_digits(order.memory as nat),
        "--disk"@,
        "size="@ + decimal_digits(order.disk as nat),
    ]);
    let mut list = list_of(&head);
    match order.os_variant {
        Some(os) => {
            let words: [&str; 2] = ["--os-variant", os.as_str()];
            assert(views(words@) =~= system_arguments(*order.os_variant));
            extend_with(&mut list, &words);
        },
        None => {
            assert(texts(list@) + system_arguments(*order.os_variant) =~= texts(list@));
        },
    }
    match order.iso {
        Some(path) => {
            let words: [&str; 2] = ["--cdrom", path.as_str()];
            assert(views(words@) =~= media_arguments(*order.iso));
            extend_with(&mut list, &words);
        },
        None => {
            let words: [&str; 1] = ["--pxe"];
            assert(views(words@) =~= media_arguments(*order.iso));
            extend_with(&mut list, &words);
        },
    }
    if same_text(order.network, "none") {
        assert(texts(list@) + network_arguments(order.network@) =~= texts(list@));
    } else if same_text(order.network, "default") {
        let words: [&str; 2] = ["--network", "network=default"];
        assert(views(words@) =~= network_arguments(order.network@));
        extend_with(&mut list, &words);
    } else {
        let bridge = joined("bridge=", order.network);
        let words: [&str; 2] = ["--network", bridge.as_str()];
        assert(views(words@) =~= network_arguments(order.network@));
        extend_with(&mut list, &words);
    }
    let tail: [&str; 3] = ["--graphics", "vnc,listen=0.0.0.0", "--noautoconsole"];
    assert(views(tail@) =~= seq!["--graphics"@, "vnc,listen=0.0.0.0"@, "--noautoconsole"@]);
    extend_with(&mut list, &tail);
    list
}

fn plan_create(hypervisor: Hypervisor, order: &MachineOrder) -> (plan: VmPlan)
    ensures
        plan@ == create_plan(hypervisor, order@),
{
    let name = order.name;
    match hypervisor {
        Hypervisor::Virsh => {
            let step = Step {
                program: "virt-install".to_owned(),
                arguments: install_words(order),
                needed: Needed::Success,
            };
            VmPlan {
                announcement: around("Creating ", name, " via virt-install..."),
                steps: one_step(step),
                pause_before_last: false,
                success: Some(joined(name_words(name).as_str(), " created successfully")),
                failure: "Failed to create VM: ".to_owned(),
                shown: Shown::Output,
            }
        },
        Hypervisor::VirtualBox => {
            let vcpus = u64_to_text(order.vcpus as u64);
            let memory = u64_to_text(order.memory as u64);
            let size = u64_to_text(order.disk as u64 * 1024);
            let mut path = joined("/var/lib/virtualbox/", name);
            path.append(".vdi");
            let system: &str = match order.os_variant {
                Some(os) => os.as_str(),
                None => "Linux_64",
            };
            let register: [&str; 6] = ["createvm", "--name", name, "--ostype", system, "--register"];
            assert(views(register@) =~= seq![
                "createvm"@,
                "--name"@,
                name@,
                "--ostype"@,
                system@,
                "--register"@,
            ]);
            let modify: [&str; 6] = [
                "modifyvm",
                name,
                "--cpus",
                vcpus.as_str(),
                "--memory",
                memory.as_str(),
            ];
            assert(views(modify@) =~= seq![
                "modifyvm"@,
                name@,
                "--cpus"@,
                vcpus@,
                "--memory"@,
                memory@,
            ]);
            let disk: [&str; 5] = [
                "createhd",
                "--filename",
                path.as_str(),
                "--size",
                size.as_str(),
            ];
            assert(views(disk@) =~= seq!["createhd"@, "--filename"@, path@, "--size"@, size@]);
            let controller: [&str; 8] = [
                "storagectl",
                name,
                "--name",
                "SATA",
                "--add",
                "sata",
                "--controller",
                "IntelAhci",
            ];
            assert(views(controller@) =~= seq![
                "storagectl"@,
                name@,
                "--name"@,
                "SATA"@,
                "--add"@,
                "sata"@,
                "--controller"@,
                "IntelAhci"@,
            ]);
            let attach: [&str; 12] = [
                "storageattach",
                name,
                "--storagectl",
                "SATA",
                "--port",
                "0",
                "--device",
                "0",
                "--type",
                "hdd",
                "--medium",
                path.as_str(),
            ];
            assert(views(attach@) =~= seq![
                "storageattach"@,
                name@,
                "--storagectl"@,
                "SATA"@,
                "--port"@,
                "0"@,
                "--device"@,
                "0"@,
                "--type"@,
                "hdd"@,
                "--medium"@,
                path@,
            ]);
            let first = step_of(hypervisor, list_of(&register), Needed::Success);
            let second = step_of(hypervisor, list_of(&modify), Needed::Start);
            let third = step_of(hypervisor, list_of(&disk), Needed::Start);
            let fourth = step_of(hypervisor, list_of(&controller), Needed::Start);
            let fifth = step_of(hypervisor, list_of(&attach), Needed::Start);
            let mut steps: Vec<Step> = Vec::new();
            steps.push(first);
            steps.push(second);
            steps.push(third);
            steps.push(fourth);
            steps.push(fifth);
            assert(views(steps@) =~= seq![first@, second@, third@, fourth@, fifth@]);
            let plan = VmPlan {
                announcement: around("Creating ", name, " via VBoxManage..."),
                steps,
                pause_before_last: false,
                success: Some(joined(name_words(name).as_str(), " created successfully")),
                failure: "Failed to create VM: ".to_owned(),
                shown: Shown::Nothing,
            };
            assert(plan@.steps[0].arguments =~= create_plan(hypervisor, order@).steps[0].arguments);
            assert(plan@.steps =~= create_plan(hypervisor, order@).steps);
            plan
        },
    }
}

/// The question that is asked before a command is carried out, where one is
/// asked.
pub fn confirmation_question(cmd: &VmCommands) -> (asked: Option<String>)
    ensures
        match question(*cmd) {
            Some(text) => asked is Some && asked->0@ == text,
            None => asked is None,
        },
{
    match cmd {
        VmCommands::Delete { name, yes, .. } => {
            if *yes {
                None
            } else {
                Some(around("Are you sure you want to delete ", name.as_str(), "? [y/N]: "))
            }
        },
        _ => None,
    }
}

/// Whether an answer to the question says yes.
pub fn is_confirmed(answer: &str) -> (yes: bool)
    ensures
        yes == says_yes(answer@),
{
    is_word_of(trim(answer).as_str(), "y")
}

/// What is done for a command on virtual machines: the plan that the caller
/// carries out. A hypervisor that is not supported is a validation error,
/// whatever the command.
pub fn handle_vm_command(cmd: &VmCommands) -> (result: Result<VmPlan, Failure>)
    ensures
        match vm_plan(*cmd) {
            Ok(plan) => result is Ok && result->Ok_0@ == plan,
            Err(message) => result is Err && result->Err_0@ == validation_error(message),
        },
{
    let word: &str = match cmd {
        VmCommands::List { hypervisor, .. } => hypervisor.as_str(),
        VmCommands::Start { hypervisor, .. } => hypervisor.as_str(),
        VmCommands::Stop { hypervisor, .. } => hypervisor.as_str(),
        VmCommands::Create { hypervisor, .. } => hypervisor.as_str(),
        VmCommands::Delete { hypervisor, .. } => hypervisor.as_str(),
        VmCommands::Status { hypervisor, .. } => hypervisor.as_str(),
        VmCommands::Reboot { hypervisor, .. } => hypervisor.as_str(),
    };
    let hypervisor = match read_hypervisor(word) {
        Some(hypervisor) => hypervisor,
        None => {
            return Err(Failure::validation(joined("Unsupported hypervisor: ", word)));
        },
    };
    Ok(
        match cmd {
            VmCommands::List { format, .. } => plan_list(hypervisor, format.as_str()),
            VmCommands::Start { name, .. } => plan_start(hypervisor, name.as_str()),
            VmCommands::Stop { name, force, .. } => plan_stop(hypervisor, name.as_str(), *force),
            VmCommands::Create { name, vcpus, memory, disk, os_variant, iso, network, .. } => plan_create(
                hypervisor,
                &MachineOrder {
                    name: name.as_str(),
                    vcpus: *vcpus,
                    memory: *memory,
                    disk: *disk,
                    os_variant,
                    iso,
                    network: network.as_str(),
                },
            ),
            VmCommands::Delete { name, remove_storage, .. } => plan_delete(
                hypervisor,
                name.as_str(),
                *remove_storage,
            ),
            VmCommands::Status { name, format, .. } => plan_status(
                hypervisor,
                name.as_str(),
                format.as_str(),
            ),
            VmCommands::Reboot { name, force, .. } => plan_reboot(hypervisor, name.as_str(), *force),
        },
    )
}

} // verus!
