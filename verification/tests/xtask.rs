use hak::xtask::{
    join, parent, path_to_kernel_bin, stem, try_find_path_to_terrikon_hak, Args, Build, Check,
    Command, FirmwareStandard, Image, Run, Runner, Step, Target, TargetType,
};

const X86: Target = Target { target: TargetType::X86_64UnknownNoneElf };
const RISCV: Target = Target { target: TargetType::Riscv64gcUnknownNoneElf };

fn text_of(runner: &Runner) -> String {
    let mut text = runner.command.clone();
    for arg in &runner.args {
        text.push(' ');
        text.push_str(arg);
    }
    text
}

fn lines(steps: &[Step]) -> Vec<(String, String)> {
    steps.iter().map(|step| (step.dir.clone(), text_of(&step.runner))).collect()
}

const BUILD_STD: &str = " -Z build-std=core -Z build-std-features=compiler-builtins-mem";

#[test]
fn targets_have_their_names() {
    assert_eq!(TargetType::Riscv64gcUnknownNoneElf.to_string(), "riscv64gc-unknown-none-elf");
    assert_eq!(TargetType::X86_64UnknownNoneElf.to_string(), "x86_64-unknown-none-elf.json");
    assert_eq!(TargetType::X86_64UnknownNoneElf.as_str(), "x86_64-unknown-none-elf.json");
    assert_eq!(*X86.deref(), TargetType::X86_64UnknownNoneElf);
}

#[test]
fn only_the_x86_target_builds_core() {
    assert!(TargetType::X86_64UnknownNoneElf.is_build_core_target());
    assert!(!TargetType::Riscv64gcUnknownNoneElf.is_build_core_target());
}

#[test]
fn stem_ends_at_the_first_dot() {
    assert_eq!(stem("x86_64-unknown-none-elf.json"), "x86_64-unknown-none-elf");
    assert_eq!(stem("riscv64gc-unknown-none-elf"), "riscv64gc-unknown-none-elf");
    assert_eq!(stem("a.b.c"), "a");
    assert_eq!(stem(".hidden"), "");
    assert_eq!(stem(""), "");
    assert_eq!(stem("é.x"), "é");
}

#[test]
fn join_puts_one_slash_between() {
    assert_eq!(join("target/debug", "hak"), "target/debug/hak");
    assert_eq!(join("target/debug/", "hak"), "target/debug/hak");
    assert_eq!(join("", "hak"), "hak");
    assert_eq!(join("/", "hak"), "/hak");
}

#[test]
fn parent_is_what_stands_before_the_last_slash() {
    assert_eq!(parent("target/debug/hak"), "target/debug");
    assert_eq!(parent("target/"), "target");
    assert_eq!(parent("hak"), "");
    assert_eq!(parent(""), "");
    assert_eq!(parent("/hak"), "");
    assert_eq!(parent("../hak/target/x/release/hak"), "../hak/target/x/release");
}

#[test]
fn kernel_binary_lies_below_target() {
    assert_eq!(
        path_to_kernel_bin(&TargetType::X86_64UnknownNoneElf, false),
        "target/x86_64-unknown-none-elf/debug/hak"
    );
    assert_eq!(
        path_to_kernel_bin(&TargetType::X86_64UnknownNoneElf, true),
        "target/x86_64-unknown-none-elf/release/hak"
    );
    assert_eq!(
        path_to_kernel_bin(&TargetType::Riscv64gcUnknownNoneElf, true),
        "target/riscv64gc-unknown-none-elf/release/hak"
    );
}

#[test]
fn builder_collects_command_and_arguments() {
    let runner = Runner::builder().build();
    assert_eq!(runner.command, "");
    assert!(runner.args.is_empty());
    let runner = Runner::builder()
        .arg("-a")
        .command("first")
        .opt_arg(None)
        .opt_arg(Some("-b"))
        .command("second")
        .arg("-c")
        .build();
    assert_eq!(runner.command, "second");
    assert_eq!(runner.args, vec!["-a", "-b", "-c"]);
    let runner = Runner::builder().command("cargo").build_std().build();
    assert_eq!(text_of(&runner), format!("cargo{BUILD_STD}"));
}

#[test]
fn emulator_boots_the_image() {
    let runner = TargetType::X86_64UnknownNoneElf.runner("target/x86_64-unknown-none-elf/debug");
    assert_eq!(runner.command, "qemu-system-x86_64");
    assert_eq!(
        runner.args,
        vec![
            "-drive",
            "format=raw,file=target/x86_64-unknown-none-elf/debug/boot-bios-hak.img",
            "-serial",
            "stdio",
        ]
    );
    let runner = TargetType::X86_64UnknownNoneElf.runner("");
    assert_eq!(runner.args[1], "format=raw,file=boot-bios-hak.img");
}

#[test]
fn check_task_runs_cargo_check() {
    assert_eq!(
        text_of(&Check { target: RISCV }.execute()),
        "cargo check --package hak --target riscv64gc-unknown-none-elf"
    );
    assert_eq!(
        text_of(&Check { target: X86 }.execute()),
        format!("cargo check --package hak --target x86_64-unknown-none-elf.json{BUILD_STD}")
    );
}

#[test]
fn build_task_runs_cargo_build() {
    assert_eq!(
        text_of(&Build { release: false, target: RISCV }.execute()),
        "cargo build --package hak --target riscv64gc-unknown-none-elf"
    );
    assert_eq!(
        text_of(&Build { release: true, target: RISCV }.execute()),
        "cargo build --package hak --target riscv64gc-unknown-none-elf --release"
    );
    assert_eq!(
        text_of(&Build { release: true, target: X86 }.execute()),
        format!(
            "cargo build --package hak --target x86_64-unknown-none-elf.json --release{BUILD_STD}"
        )
    );
}

#[test]
fn image_task_builds_then_packs() {
    let image = Image { target: X86, release: true, firmware_standard: FirmwareStandard::Bios };
    let build = format!(
        "cargo build --package hak --target x86_64-unknown-none-elf.json --release{BUILD_STD}"
    );
    let pack = "cargo builder --kernel-manifest ../hak/Cargo.toml \
                --kernel-binary ../hak/target/x86_64-unknown-none-elf/release/hak \
                --target-dir ../hak/target \
                --out-dir ../hak/target/x86_64-unknown-none-elf/release";
    assert_eq!(
        lines(&image.execute()),
        vec![(String::new(), build.clone()), ("../bootloader".to_string(), pack.to_string())]
    );
    assert_eq!(lines(&[image.run_build_step()]), vec![(String::new(), build)]);
    assert_eq!(
        lines(&[image.build_image()]),
        vec![("../bootloader".to_string(), pack.to_string())]
    );
}

#[test]
fn run_task_builds_packs_and_boots() {
    let run = Run { target: X86, release: false, firmware_standard: FirmwareStandard::Uefi };
    assert_eq!(
        run.image_step(),
        Image { target: X86, release: false, firmware_standard: FirmwareStandard::Uefi }
    );
    let steps = lines(&run.execute());
    assert_eq!(steps.len(), 3);
    assert_eq!(steps[..2], lines(&run.image_step().execute())[..]);
    assert_eq!(
        steps[2],
        (
            String::new(),
            "qemu-system-x86_64 -drive \
             format=raw,file=target/x86_64-unknown-none-elf/debug/boot-bios-hak.img \
             -serial stdio"
                .to_string()
        )
    );
}

#[test]
fn subcommand_runs_its_task() {
    let check = Check { target: RISCV };
    let build = Build { release: true, target: X86 };
    let image = Image { target: RISCV, release: false, firmware_standard: FirmwareStandard::Bios };
    let run = Run { target: X86, release: true, firmware_standard: FirmwareStandard::Bios };
    assert_eq!(
        lines(&Command::Check(check).execute()),
        vec![(String::new(), text_of(&check.execute()))]
    );
    assert_eq!(
        lines(&Command::Build(build).execute()),
        vec![(String::new(), text_of(&build.execute()))]
    );
    assert_eq!(lines(&Command::Image(image).execute()), lines(&image.execute()));
    assert_eq!(lines(&Command::Run(run).execute()), lines(&run.execute()));
    assert_eq!(
        lines(&Args { subcommand: Command::Image(image) }.execute_subcommand()),
        lines(&image.execute())
    );
}

#[test]
fn kernel_directory_is_found_from_below() {
    assert_eq!(
        try_find_path_to_terrikon_hak("/home/dev/Terrikon/hak/xtask"),
        Some("/home/dev/Terrikon/hak".to_string())
    );
    assert_eq!(
        try_find_path_to_terrikon_hak("/home/dev/Terrikon/hak/xtask/src/subcommands"),
        Some("/home/dev/Terrikon/hak".to_string())
    );
    assert_eq!(
        try_find_path_to_terrikon_hak("/home/dev/Terrikon/hak"),
        Some("/home/dev/Terrikon/hak".to_string())
    );
    assert_eq!(try_find_path_to_terrikon_hak("/Terrikon/hak"), Some("/Terrikon/hak".to_string()));
    assert_eq!(try_find_path_to_terrikon_hak("Terrikon/hak"), Some("Terrikon/hak".to_string()));
    assert_eq!(try_find_path_to_terrikon_hak("Terrikon/hak/xtask"), Some("Terrikon/hak".to_string()));
}

#[test]
fn kernel_directory_is_the_nearest_one() {
    assert_eq!(
        try_find_path_to_terrikon_hak("/srv/Terrikon/hak/Terrikon/hak/xtask"),
        Some("/srv/Terrikon/hak/Terrikon/hak".to_string())
    );
}

#[test]
fn kernel_directory_is_told_by_whole_names() {
    assert_eq!(try_find_path_to_terrikon_hak(""), None);
    assert_eq!(try_find_path_to_terrikon_hak("/"), None);
    assert_eq!(try_find_path_to_terrikon_hak("/home/dev"), None);
    assert_eq!(try_find_path_to_terrikon_hak("/home/dev/hak"), None);
    assert_eq!(try_find_path_to_terrikon_hak("/home/dev/Terrikon"), None);
    assert_eq!(try_find_path_to_terrikon_hak("/home/dev/Terrikon/hakx"), None);
    assert_eq!(try_find_path_to_terrikon_hak("/home/dev/Terrikon/hakx/sub"), None);
    assert_eq!(try_find_path_to_terrikon_hak("/home/dev/xTerrikon/hak"), None);
    assert_eq!(try_find_path_to_terrikon_hak("xTerrikon/hak"), None);
    assert_eq!(try_find_path_to_terrikon_hak("/home/dev/terrikon/hak"), None);
    assert_eq!(try_find_path_to_terrikon_hak("errikon/hak"), None);
}
