//! The kernel's build tasks: which commands check, build, package and run
//! the kernel. The tasks are put together here; running them is the caller's
//! part.

use vstd::prelude::*;
use vstd::string::*;

verus! {

/// A command with its arguments.
pub struct CommandLine {
    pub command: Seq<char>,
    pub args: Seq<Seq<char>>,
}

/// The machines that the kernel is built for.
#[derive(Clone, Copy, Debug, PartialEq, Eq, Structural)]
pub enum TargetType {
    Riscv64gcUnknownNoneElf,
    X86_64UnknownNoneElf,
}

/// The part of `s` before its first dot; all of `s` where it has none.
pub open spec fn before_dot(s: Seq<char>) -> Seq<char>
    decreases s.len(),
{
    if s.len() == 0 || s[0] == '.' {
        Seq::empty()
    } else {
        seq![s[0]] + before_dot(s.drop_first())
    }
}

/// `name` as a path below the directory `dir`: an empty `dir` adds nothing,
/// and one that ends in a slash gets no second one.
pub open spec fn joined(dir: Seq<char>, name: Seq<char>) -> Seq<char> {
    if dir.len() == 0 || dir.last() == '/' {
        dir + name
    } else {
        dir + seq!['/'] + name
    }
}

/// The flags that make cargo build the core library along with the kernel.
pub open spec fn build_std_flags() -> Seq<Seq<char>> {
    seq!["-Z"@, "build-std=core"@, "-Z"@, "build-std-features=compiler-builtins-mem"@]
}

proof fn lemma_before_dot(s: Seq<char>, end: int)
    requires
        0 <= end <= s.len(),
        forall|i: int| 0 <= i < end ==> s[i] != '.',
        end == s.len() || s[end] == '.',
    ensures
        before_dot(s) == s.subrange(0, end),
    decreases end,
{
    if end == 0 {
        assert(s.subrange(0, 0) =~= Seq::<char>::empty());
    } else {
        let rest = s.drop_first();
        assert forall|i: int| 0 <= i < end - 1 implies rest[i] != '.' by {
            assert(rest[i] == s[i + 1]);
        }
        lemma_before_dot(rest, end - 1);
        assert(s.subrange(0, end) =~= seq![s[0]] + rest.subrange(0, end - 1));
    }
}

/// The part of `s` before its first dot.
pub fn stem(s: &str) -> (part: String)
    ensures
        part@ == before_dot(s@),
{
    let len = s.unicode_len();
    let mut end: usize = 0;
    while end < len && s.get_char(end) != '.'
        invariant
            end <= len,
            len == s@.len(),
            forall|i: int| 0 <= i < end ==> s@[i] != '.',
        decreases len - end,
    {
        end += 1;
    }
    proof {
        lemma_before_dot(s@, end as int);
    }
    String::from_str(s.substring_char(0, end))
}

/// `name` as a path below the directory `dir`.
pub fn join(dir: &str, name: &str) -> (path: String)
    ensures
        path@ == joined(dir@, name@),
{
    let len = dir.unicode_len();
    let mut path = String::from_str(dir);
    if len > 0 && dir.get_char(len - 1) != '/' {
        proof {
            reveal_strlit("/");
        }
        path.append("/");
    }
    path.append(name);
    assert(path@ =~= joined(dir@, name@));
    path
}

impl TargetType {
    /// Whether the target is described by a file of its own, so that the
    /// core library has to be built along with the kernel.
    pub fn is_build_core_target(&self) -> (custom: bool)
        ensures
            custom == (self is X86_64UnknownNoneElf),
    {
        matches!(self, Self::X86_64UnknownNoneElf)
    }

    /// What cargo knows the target by.
    pub open spec fn name(self) -> Seq<char> {
        match self {
            TargetType::Riscv64gcUnknownNoneElf => "riscv64gc-unknown-none-elf"@,
            TargetType::X86_64UnknownNoneElf => "x86_64-unknown-none-elf.json"@,
        }
    }

    /// What cargo knows the target by.
    pub fn as_str(&self) -> (name: &'static str)
        ensures
            name@ == self.name(),
    {
        match self {
            Self::Riscv64gcUnknownNoneElf => "riscv64gc-unknown-none-elf",
            Self::X86_64UnknownNoneElf => "x86_64-unknown-none-elf.json",
        }
    }

    /// What cargo knows the target by.
    pub fn to_string(&self) -> (name: String)
        ensures
            name@ == self.name(),
    {
        String::from_str(self.as_str())
    }

    /// The command that an emulator runs the kernel with, given the directory
    /// that holds the bootable image.
    pub open spec fn emulator(self, path_to_out_dir: Seq<char>) -> CommandLine {
        CommandLine {
            command: "qemu-system-x86_64"@,
            args: seq![
                "-drive"@,
                "format=raw,file="@ + joined(path_to_out_dir, "boot-bios-hak.img"@),
                "-serial"@,
                "stdio"@,
            ],
        }
    }

    /// The command that an emulator runs the kernel with. There is none yet
    /// for the RISC-V target.
    pub fn runner(&self, path_to_out_dir: &str) -> (runner: Runner)
        requires
            self is X86_64UnknownNoneElf,
        ensures
            runner@ == self.emulator(path_to_out_dir@),
    {
        let mut drive = String::from_str("format=raw,file=");
        let image = join(path_to_out_dir, "boot-bios-hak.img");
        drive.append(image.as_str());
        let runner = Runner::builder().command("qemu-system-x86_64").arg("-drive").arg(
            drive.as_str(),
        ).arg("-serial").arg("stdio").build();
        assert(runner@.args =~= self.emulator(path_to_out_dir@).args);
        runner
    }
}

/// The target that a task works for.
#[derive(Clone, Copy, Debug, PartialEq, Eq, Structural)]
pub struct Target {
    pub target: TargetType,
}

impl Target {
    /// The target.
    pub fn deref(&self) -> (target: &TargetType)
        ensures
            *target == self.target,
    {
        &self.target
    }
}

/// Where the kernel's binary lies below a directory, by the target and the
/// kind of build.
pub open spec fn kernel_bin(target: TargetType, is_release: bool) -> Seq<char> {
    "target"@ + seq!['/'] + before_dot(target.name()) + seq!['/'] + (if is_release {
        "release"@
    } else {
        "debug"@
    }) + seq!['/'] + "hak"@
}

/// Where the kernel's binary lies: `target`, the target's name without its
/// extension, `release` or `debug`, and `hak`, as one path.
pub fn path_to_kernel_bin(target: &TargetType, is_release: bool) -> (path: String)
    ensures
        path@ == kernel_bin(*target, is_release),
{
    proof {
        reveal_strlit("/");
    }
    let name = stem(target.as_str());
    let mut path_to_kernel = String::from_str("target");
    path_to_kernel.append("/");
    path_to_kernel.append(name.as_str());
    path_to_kernel.append("/");
    path_to_kernel.append(
        if is_release {
            "release"
        } else {
            "debug"
        },
    );
    path_to_kernel.append("/");
    path_to_kernel.append("hak");
    assert(path_to_kernel@ =~= kernel_bin(*target, is_release));
    path_to_kernel
}

/// The directory that holds `path`: what stands before its last slash, and
/// nothing where it has none.
pub open spec fn parent_of(path: Seq<char>) -> Seq<char>
    decreases path.len(),
{
    if path.len() == 0 {
        Seq::empty()
    } else if path.last() == '/' {
        path.drop_last()
    } else {
        parent_of(path.drop_last())
    }
}

/// The directory that holds `path`.
pub fn parent(path: &str) -> (dir: String)
    ensures
        dir@ == parent_of(path@),
{
    let len = path.unicode_len();
    let mut end: usize = len;
    assert(path@.subrange(0, len as int) =~= path@);
    while end > 0 && path.get_char(end - 1) != '/'
        invariant
            end <= len,
            len == path@.len(),
            parent_of(path@) == parent_of(path@.subrange(0, end as int)),
        decreases end,
    {
        proof {
            let now = path@.subrange(0, end as int);
            assert(now.drop_last() =~= path@.subrange(0, end - 1));
        }
        end -= 1;
    }
    proof {
        let now = path@.subrange(0, end as int);
        if end > 0 {
            assert(now.drop_last() =~= path@.subrange(0, end - 1));
        }
    }
    if end == 0 {
        String::new()
    } else {
        String::from_str(path.substring_char(0, end - 1))
    }
}

/// Whether the first `len` characters of `path` are the path itself or one of
/// the directories above it: the path is cut before a slash, or not at all.
pub open spec fn is_ancestor(path: Seq<char>, len: int) -> bool {
    0 <= len <= path.len() && (len == path.len() || path[len] == '/')
}

/// Whether the last two names of a directory are `Terrikon` and `hak`.
pub open spec fn in_terrikon_hak(dir: Seq<char>) -> bool {
    let name = "Terrikon/hak"@;
    &&& dir.len() >= name.len()
    &&& dir.subrange(dir.len() - name.len(), dir.len() as int) == name
    &&& (dir.len() == name.len() || dir[dir.len() - name.len() - 1] == '/')
}

/// Whether the first `end` characters of `path` end in `name`.
fn ends_at(path: &str, end: usize, name: &str) -> (ends: bool)
    requires
        end <= path@.len(),
    ensures
        ends == (end >= name@.len() && path@.subrange(end - name@.len(), end as int) == name@),
{
    let len = name.unicode_len();
    if end < len {
        return false;
    }
    let start = end - len;
    let mut matched: usize = 0;
    while matched < len
        invariant
            matched <= len,
            len == name@.len(),
            start + len == end,
            end <= path@.len(),
            forall|i: int| 0 <= i < matched ==> path@[start + i] == name@[i],
        decreases len - matched,
    {
        if path.get_char(start + matched) != name.get_char(matched) {
            assert(path@.subrange(start as int, end as int)[matched as int] != name@[matched as int]);
            return false;
        }
        matched += 1;
    }
    assert(path@.subrange(start as int, end as int) =~= name@);
    true
}

/// The kernel's directory, seen from the directory `cwd`: the longest among
/// `cwd` and the directories above it whose last two names are `Terrikon` and
/// `hak`. `None` says that there is no such directory.
///
/// `cwd` is a path as the system gives it: its names are separated by one
/// slash each, and no slash ends it.
pub fn try_find_path_to_terrikon_hak(cwd: &str) -> (found: Option<String>)
    ensures
        match found {
            Some(dir) => {
                &&& is_ancestor(cwd@, dir@.len() as int)
                &&& dir@ == cwd@.subrange(0, dir@.len() as int)
                &&& in_terrikon_hak(dir@)
                &&& forall|len: int|
                    dir@.len() < len && is_ancestor(cwd@, len) ==> !in_terrikon_hak(
                        #[trigger] cwd@.subrange(0, len),
                    )
            },
            None => forall|len: int|
                is_ancestor(cwd@, len) ==> !in_terrikon_hak(#[trigger] cwd@.subrange(0, len)),
        },
{
    proof {
        reveal_strlit("Terrikon/hak");
    }
    let name = "Terrikon/hak";
    let len = cwd.unicode_len();
    let mut end: usize = len;
    loop
        invariant
            end <= len,
            len == cwd@.len(),
            name@ == "Terrikon/hak"@,
            name@.len() == 12,
            forall|longer: int|
                end < longer && is_ancestor(cwd@, longer) ==> !in_terrikon_hak(
                    #[trigger] cwd@.subrange(0, longer),
                ),
        decreases end,
    {
        let ghost dir = cwd@.subrange(0, end as int);
        if (end == len || cwd.get_char(end) == '/') && ends_at(cwd, end, name) {
            if end == 12 || cwd.get_char(end - 13) == '/' {
                assert(dir.subrange(dir.len() - 12, dir.len() as int) =~= cwd@.subrange(
                    end - 12,
                    end as int,
                ));
                return Some(String::from_str(cwd.substring_char(0, end)));
            }
        }
        proof {
            if is_ancestor(cwd@, end as int) && in_terrikon_hak(dir) {
                assert(dir.subrange(dir.len() - 12, dir.len() as int) =~= cwd@.subrange(
                    end - 12,
                    end as int,
                ));
                assert(false);
            }
        }
        if end == 0 {
            return None;
        }
        end -= 1;
    }
}

/// A command that is ready to run.
pub struct Runner {
    pub command: String,
    pub args: Vec<String>,
}

impl View for Runner {
    type V = CommandLine;

    open spec fn view(&self) -> CommandLine {
        CommandLine { command: self.command@, args: self.args.deep_view() }
    }
}

impl Runner {
    /// Start on a command: it has no name and no arguments yet.
    pub fn builder() -> (builder: RunnerBuilder)
        ensures
            builder@ == (CommandLine { command: Seq::empty(), args: Seq::empty() }),
    {
        let builder = RunnerBuilder { command: String::new(), args: Vec::new() };
        assert(builder@.args =~= Seq::empty());
        builder
    }
}

/// A command in the making.
pub struct RunnerBuilder {
    command: String,
    args: Vec<String>,
}

impl View for RunnerBuilder {
    type V = CommandLine;

    closed spec fn view(&self) -> CommandLine {
        CommandLine { command: self.command@, args: self.args.deep_view() }
    }
}

impl RunnerBuilder {
    /// Name the program to run.
    pub fn command(self, command: &str) -> (builder: Self)
        ensures
            builder@ == (CommandLine { command: command@, ..self@ }),
    {
        RunnerBuilder { command: String::from_str(command), args: self.args }
    }

    /// Add an argument behind those that are there.
    pub fn arg(self, arg: &str) -> (builder: Self)
        ensures
            builder@ == (CommandLine { args: self@.args.push(arg@), ..self@ }),
    {
        let ghost before = self.args.deep_view();
        let mut args = self.args;
        args.push(String::from_str(arg));
        assert(args.deep_view() =~= before.push(arg@));
        RunnerBuilder { command: self.command, args }
    }

    /// Add an argument if there is one.
    pub fn opt_arg(self, arg: Option<&str>) -> (builder: Self)
        ensures
            builder@ == (match arg {
                Some(argument) => CommandLine { args: self@.args.push(argument@), ..self@ },
                None => self@,
            }),
    {
        if let Some(argument) = arg {
            self.arg(argument)
        } else {
            self
        }
    }

    /// Add the flags that make cargo build the core library.
    pub fn build_std(self) -> (builder: Self)
        ensures
            builder@ == (CommandLine { args: self@.args + build_std_flags(), ..self@ }),
    {
        let ghost before = self@.args;
        let builder = self.arg("-Z").arg("build-std=core").arg("-Z").arg(
            "build-std-features=compiler-builtins-mem",
        );
        assert(builder@.args =~= before + build_std_flags());
        builder
    }

    /// The command as it stands.
    pub fn build(self) -> (runner: Runner)
        ensures
            runner@ == self@,
    {
        Runner { command: self.command, args: self.args }
    }
}

/// The firmware that the bootable image is made for.
#[derive(Clone, Copy, Debug, PartialEq, Eq, Structural)]
pub enum FirmwareStandard {
    Bios,
    Uefi,
}

/// A command and the directory to run it in; an empty `dir` stands for the
/// directory that the tasks were started in.
pub struct Step {
    pub dir: String,
    pub runner: Runner,
}

/// A command and the directory to run it in.
pub struct StepView {
    pub dir: Seq<char>,
    pub command: CommandLine,
}

impl View for Step {
    type V = StepView;

    open spec fn view(&self) -> StepView {
        StepView { dir: self.dir@, command: self.runner@ }
    }
}

/// The steps of a task, in the order in which they run. Each runs only where
/// the one before it succeeded.
pub open spec fn steps_view(steps: Seq<Step>) -> Seq<StepView> {
    Seq::new(steps.len(), |i: int| steps[i]@)
}

/// Check the kernel for compilation errors.
#[derive(Clone, Copy, Debug, PartialEq, Eq, Structural)]
pub struct Check {
    /// The target for which the kernel is checked.
    pub target: Target,
}

impl Check {
    /// The command of the task.
    pub open spec fn command_line(self) -> CommandLine {
        CommandLine {
            command: "cargo"@,
            args: seq!["check"@, "--package"@, "hak"@, "--target"@, self.target.target.name()] + (
            if self.target.target is X86_64UnknownNoneElf {
                build_std_flags()
            } else {
                Seq::empty()
            }),
        }
    }

    /// The command that checks the kernel.
    pub fn execute(&self) -> (runner: Runner)
        ensures
            runner@ == self.command_line(),
    {
        let do_build_std = self.target.target.is_build_core_target();
        let mut cmd = Runner::builder().command("cargo").arg("check").arg("--package").arg(
            "hak",
        ).arg("--target").arg(self.target.target.as_str());
        if do_build_std {
            cmd = cmd.build_std();
        }
        let runner = cmd.build();
        assert(runner@.args =~= self.command_line().args);
        runner
    }
}

/// Build the kernel.
#[derive(Clone, Copy, Debug, PartialEq, Eq, Structural)]
pub struct Build {
    /// Build with optimizations.
    pub release: bool,
    /// The target for which the kernel is built.
    pub target: Target,
}

impl Build {
    /// The command of the task.
    pub open spec fn command_line(self) -> CommandLine {
        CommandLine {
            command: "cargo"@,
            args: seq!["build"@, "--package"@, "hak"@, "--target"@, self.target.target.name()] + (
            if self.release {
                seq!["--release"@]
            } else {
                Seq::empty()
            }) + (if self.target.target is X86_64UnknownNoneElf {
                build_std_flags()
            } else {
                Seq::empty()
            }),
        }
    }

    /// The command that builds the kernel.
    pub fn execute(&self) -> (runner: Runner)
        ensures
            runner@ == self.command_line(),
    {
        let is_release = if self.release {
            Some("--release")
        } else {
            None
        };
        let mut cmd = Runner::builder().command("cargo").arg("build").arg("--package").arg(
            "hak",
        ).arg("--target").arg(self.target.target.as_str()).opt_arg(is_release);
        if self.target.target.is_build_core_target() {
            cmd = cmd.build_std();
        }
        let runner = cmd.build();
        assert(runner@.args =~= self.command_line().args);
        runner
    }
}

/// Make a bootable image of the kernel.
#[derive(Clone, Copy, Debug, PartialEq, Eq, Structural)]
pub struct Image {
    /// The target for which the kernel is built.
    pub target: Target,
    /// Build with optimizations.
    pub release: bool,
    /// The firmware that the image is made for.
    pub firmware_standard: FirmwareStandard,
}

impl Image {
    /// The kernel's binary as the bootloader's builder finds it from its own
    /// directory.
    pub open spec fn kernel_binary(self) -> Seq<char> {
        "../hak/"@ + kernel_bin(self.target.target, self.release)
    }

    /// The command that packs the kernel into an image. It runs in the
    /// bootloader's directory.
    pub open spec fn image_step(self) -> StepView {
        StepView {
            dir: "../bootloader"@,
            command: CommandLine {
                command: "cargo"@,
                args: seq![
                    "builder"@,
                    "--kernel-manifest"@,
                    "../hak/Cargo.toml"@,
                    "--kernel-binary"@,
                    self.kernel_binary(),
                    "--target-dir"@,
                    "../hak/target"@,
                    "--out-dir"@,
                    parent_of(self.kernel_binary()),
                ],
            },
        }
    }

    /// The command that builds the kernel.
    pub open spec fn build_step(self) -> StepView {
        StepView {
            dir: Seq::empty(),
            command: (Build { target: self.target, release: self.release }).command_line(),
        }
    }

    /// The steps of the task: build the kernel, then pack it into an image.
    pub fn execute(&self) -> (steps: Vec<Step>)
        ensures
            steps_view(steps@) == seq![self.build_step(), self.image_step()],
    {
        let mut steps: Vec<Step> = Vec::new();
        steps.push(self.run_build_step());
        steps.push(self.build_image());
        assert(steps_view(steps@) =~= seq![self.build_step(), self.image_step()]);
        steps
    }

    /// The step that packs the kernel into an image.
    pub fn build_image(&self) -> (step: Step)
        ensures
            step@ == self.image_step(),
    {
        let mut path_to_kernel_bin = String::from_str("../hak/");
        path_to_kernel_bin.append(path_to_kernel_bin_of(self).as_str());
        let kernel_manifest_path = "../hak/Cargo.toml";
        let target_dir = "../hak/target";
        let out_dir = parent(path_to_kernel_bin.as_str());
        let runner = Runner::builder().command("cargo").arg("builder").arg(
            "--kernel-manifest",
        ).arg(kernel_manifest_path).arg("--kernel-binary").arg(path_to_kernel_bin.as_str()).arg(
            "--target-dir",
        ).arg(target_dir).arg("--out-dir").arg(out_dir.as_str()).build();
        assert(runner@.args =~= self.image_step().command.args);
        Step { dir: String::from_str("../bootloader"), runner }
    }

    /// The step that builds the kernel.
    pub fn run_build_step(&self) -> (step: Step)
        ensures
            step@ == self.build_step(),
    {
        let build = Build { target: self.target, release: self.release };
        Step { dir: String::new(), runner: build.execute() }
    }
}

/// The kernel's binary for an image task.
fn path_to_kernel_bin_of(image: &Image) -> (path: String)
    ensures
        path@ == kernel_bin(image.target.target, image.release),
{
    path_to_kernel_bin(image.target.deref(), image.release)
}

/// Run the kernel in an emulator.
#[derive(Clone, Copy, Debug, PartialEq, Eq, Structural)]
pub struct Run {
    /// The target for which the kernel is built.
    pub target: Target,
    /// Build with optimizations.
    pub release: bool,
    /// The firmware that the image is made for.
    pub firmware_standard: FirmwareStandard,
}

impl Run {
    /// The image task that the run starts with.
    pub open spec fn image(self) -> Image {
        Image {
            target: self.target,
            release: self.release,
            firmware_standard: self.firmware_standard,
        }
    }

    /// The step that starts the emulator on the image, which lies beside the
    /// kernel's binary.
    pub open spec fn emulator_step(self) -> StepView {
        StepView {
            dir: Seq::empty(),
            command: self.target.target.emulator(
                parent_of(kernel_bin(self.target.target, self.release)),
            ),
        }
    }

    /// The image task that the run starts with.
    pub fn image_step(&self) -> (image: Image)
        ensures
            image == self.image(),
    {
        Image {
            target: self.target,
            release: self.release,
            firmware_standard: self.firmware_standard,
        }
    }

    /// The steps of the task: build the kernel, pack it into an image, and
    /// start the emulator on the image. There is no emulator yet for the
    /// RISC-V target.
    pub fn execute(&self) -> (steps: Vec<Step>)
        requires
            self.target.target is X86_64UnknownNoneElf,
        ensures
            steps_view(steps@) == seq![
                self.image().build_step(),
                self.image().image_step(),
                self.emulator_step(),
            ],
    {
        let mut steps = self.image_step().execute();
        let path_to_kernel_bin = path_to_kernel_bin(self.target.deref(), self.release);
        let out_dir = parent(path_to_kernel_bin.as_str());
        let runner = self.target.deref().runner(out_dir.as_str());
        let ghost before = steps_view(steps@);
        steps.push(Step { dir: String::new(), runner });
        assert(steps_view(steps@) =~= before.push(self.emulator_step()));
        steps
    }
}

/// The tasks.
#[derive(Clone, Copy, Debug, PartialEq, Eq, Structural)]
pub enum Command {
    /// Check the kernel for compilation errors.
    Check(Check),
    /// Build the kernel.
    Build(Build),
    /// Make a bootable image of the kernel.
    Image(Image),
    /// Run the kernel in an emulator.
    Run(Run),
}

impl Command {
    /// The steps of a task.
    pub open spec fn steps(self) -> Seq<StepView> {
        match self {
            Command::Check(check) => seq![StepView { dir: Seq::empty(), command: check.command_line() }],
            Command::Build(build) => seq![StepView { dir: Seq::empty(), command: build.command_line() }],
            Command::Image(image) => seq![image.build_step(), image.image_step()],
            Command::Run(run) => seq![
                run.image().build_step(),
                run.image().image_step(),
                run.emulator_step(),
            ],
        }
    }

    /// Whether the task can be put together: every task but the run for the
    /// RISC-V target, for which there is no emulator yet.
    pub open spec fn supported(self) -> bool {
        self matches Command::Run(run) ==> run.target.target is X86_64UnknownNoneElf
    }

    /// The steps of the task.
    pub fn execute(&self) -> (steps: Vec<Step>)
        requires
            self.supported(),
        ensures
            steps_view(steps@) == self.steps(),
    {
        match self {
            Self::Check(check) => {
                let mut steps: Vec<Step> = Vec::new();
                steps.push(Step { dir: String::new(), runner: check.execute() });
                assert(steps_view(steps@) =~= self.steps());
                steps
            },
            Self::Build(build) => {
                let mut steps: Vec<Step> = Vec::new();
                steps.push(Step { dir: String::new(), runner: build.execute() });
                assert(steps_view(steps@) =~= self.steps());
                steps
            },
            Self::Image(image) => image.execute(),
            Self::Run(run) => run.execute(),
        }
    }
}

/// What the command line of the tasks asks for.
#[derive(Clone, Copy, Debug, PartialEq, Eq, Structural)]
pub struct Args {
    pub subcommand: Command,
}

impl Args {
    /// The steps of the task that was asked for.
    pub fn execute_subcommand(&self) -> (steps: Vec<Step>)
        requires
            self.subcommand.supported(),
        ensures
            steps_view(steps@) == self.subcommand.steps(),
    {
        self.subcommand.execute()
    }
}

} // verus!
