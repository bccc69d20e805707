//! The target descriptor: a flat record of the architecture, ABI, object
//! format and linker facts for PowerPC Classic Mac OS, the rules that keep
//! those facts consistent, and the linker command line composed from them.
use vstd::prelude::*;

use crate::layout::{
    begins_with_marker, declares_pointer_size, declares_pointer_width, endian_marker,
    leads_with_marker, Endian, decimal_value, pointer_spec_at,
};

verus! {

/// Object format that the code generator emits.
#[derive(Clone, Copy, Debug, PartialEq, Eq, Structural)]
pub enum BinaryFormat {
    Coff,
    Elf,
    MachO,
    Wasm,
    Xcoff,
}

/// Whether the linker is driven through a C compiler.
#[derive(Clone, Copy, Debug, PartialEq, Eq, Structural)]
pub enum Cc {
    Yes,
    No,
}

/// Command-line convention of the external linker.
#[derive(Clone, Copy, Debug, PartialEq, Eq, Structural)]
pub enum LinkerFlavor {
    Gnu(Cc),
    Darwin(Cc),
    Unix(Cc),
}

/// What happens on an unrecoverable error.
#[derive(Clone, Copy, Debug, PartialEq, Eq, Structural)]
pub enum PanicStrategy {
    Unwind,
    Abort,
}

/// How code and data are addressed.
#[derive(Clone, Copy, Debug, PartialEq, Eq, Structural)]
pub enum RelocModel {
    Static,
    Pic,
    Pie,
    DynamicNoPic,
}

/// Descriptive facts about the target, for documentation and tooling.
#[derive(Debug)]
pub struct TargetMetadata {
    pub description: Option<String>,
    pub tier: Option<u64>,
    pub host_tools: Option<bool>,
    /// Whether a hosted standard library exists for the target.
    pub has_std: Option<bool>,
}

/// Code-generation and linking options of the target.
#[derive(Debug)]
pub struct TargetOptions {
    pub os: String,
    pub vendor: String,
    /// The format the code generator emits; the linker translates it into the
    /// platform's own executable format.
    pub binary_format: BinaryFormat,
    pub linker_flavor: LinkerFlavor,
    pub linker: Option<String>,
    pub dynamic_linking: bool,
    pub has_rpath: bool,
    pub has_thread_local: bool,
    pub position_independent_executables: bool,
    /// Widest atomic operation, in bits, that the hardware guarantees.
    pub max_atomic_width: Option<u64>,
    pub endian: Endian,
    pub cpu: String,
    /// Instruction-set extensions, each enabled with `+` or disabled with `-`.
    pub features: String,
    pub function_sections: bool,
    /// Standard-library families the target belongs to.
    pub families: Vec<String>,
    pub panic_strategy: PanicStrategy,
    pub relocation_model: RelocModel,
    /// Arguments that precede the object files on the linker command line.
    pub pre_link_args: Vec<String>,
    /// Arguments that follow the object files on the linker command line.
    pub late_link_args: Vec<String>,
}

/// A complete description of a compilation target.
#[derive(Debug)]
pub struct Target {
    pub llvm_target: String,
    pub metadata: TargetMetadata,
    /// Width of a pointer, in bits.
    pub pointer_width: u32,
    pub data_layout: String,
    pub arch: String,
    pub options: TargetOptions,
}

/// A rule of the descriptor that a value breaks.
#[derive(Clone, Copy, Debug, PartialEq, Eq, Structural)]
pub enum TargetError {
    /// The data layout does not lead with the marker of the declared byte order.
    EndianMismatch,
    /// The data layout does not declare pointers of the declared width.
    PointerWidthMismatch,
    /// Position-independent executables are claimed without dynamic linking.
    PieWithoutDynamicLinking,
    /// A relocatable library search path is claimed without dynamic linking.
    RpathWithoutDynamicLinking,
}

impl Target {
    /// The data layout leads with the marker of the declared byte order.
    pub open spec fn endian_consistent(&self) -> bool {
        begins_with_marker(self.data_layout@, endian_marker(self.options.endian))
    }

    /// The data layout declares pointers of the declared width.
    pub open spec fn pointer_width_consistent(&self) -> bool {
        declares_pointer_size(self.data_layout@, self.pointer_width as nat)
    }

    /// Position-independent executables need dynamic linking.
    pub open spec fn pie_consistent(&self) -> bool {
        self.options.position_independent_executables ==> self.options.dynamic_linking
    }

    /// A relocatable library search path needs dynamic linking.
    pub open spec fn rpath_consistent(&self) -> bool {
        self.options.has_rpath ==> self.options.dynamic_linking
    }

    /// Every rule of the descriptor holds.
    pub open spec fn wf(&self) -> bool {
        &&& self.endian_consistent()
        &&& self.pointer_width_consistent()
        &&& self.pie_consistent()
        &&& self.rpath_consistent()
    }

    /// Checks the rules of the descriptor, in the order in which
    /// `TargetError` lists them, and reports the first one broken.
    pub fn check_consistency(&self) -> (r: Result<(), TargetError>)
        ensures
            r is Ok <==> self.wf(),
            r == Err::<(), _>(TargetError::EndianMismatch) <==> !self.endian_consistent(),
            r == Err::<(), _>(TargetError::PointerWidthMismatch) <==> self.endian_consistent()
                && !self.pointer_width_consistent(),
            r == Err::<(), _>(TargetError::PieWithoutDynamicLinking) <==> self.endian_consistent()
                && self.pointer_width_consistent() && !self.pie_consistent(),
            r == Err::<(), _>(TargetError::RpathWithoutDynamicLinking) <==> self.endian_consistent()
                && self.pointer_width_consistent() && self.pie_consistent()
                && !self.rpath_consistent(),
    {
        if !leads_with_marker(self.data_layout.as_str(), self.options.endian) {
            return Err(TargetError::EndianMismatch);
        }
        if !declares_pointer_width(self.data_layout.as_str(), self.pointer_width) {
            return Err(TargetError::PointerWidthMismatch);
        }
        if self.options.position_independent_executables && !self.options.dynamic_linking {
            return Err(TargetError::PieWithoutDynamicLinking);
        }
        if self.options.has_rpath && !self.options.dynamic_linking {
            return Err(TargetError::RpathWithoutDynamicLinking);
        }
        Ok(())
    }
}

/// The views of a sequence of strings.
pub open spec fn views(v: Seq<String>) -> Seq<Seq<char>> {
    v.map_values(|s: String| s@)
}

impl Target {
    /// The linker command line for `objects`: the pre-link arguments, then the
    /// object files, then the late-link arguments, each group in its own order.
    pub open spec fn link_line(&self, objects: Seq<String>) -> Seq<String> {
        self.options.pre_link_args@ + objects + self.options.late_link_args@
    }

    /// Composes the linker command line for `objects`. Nothing is run.
    pub fn linker_invocation(&self, objects: &Vec<String>) -> (r: Vec<String>)
        ensures
            r@ == self.link_line(objects@),
    {
        let mut r: Vec<String> = Vec::new();
        let groups = [&self.options.pre_link_args, objects, &self.options.late_link_args];
        let ghost done: Seq<String> = Seq::empty();
        let mut g: usize = 0;
        while g < 3
            invariant
                groups@ == seq![&self.options.pre_link_args, objects, &self.options.late_link_args],
                g <= 3,
                r@ == if g == 0 {
                    Seq::<String>::empty()
                } else if g == 1 {
                    self.options.pre_link_args@
                } else if g == 2 {
                    self.options.pre_link_args@ + objects@
                } else {
                    self.link_line(objects@)
                },
            decreases 3 - g,
        {
            let group: &Vec<String> = groups[g];
            let ghost before = r@;
            let mut k: usize = 0;
            while k < group.len()
                invariant
                    k <= group@.len(),
                    r@ == before + group@.subrange(0, k as int),
                decreases group@.len() - k,
            {
                r.push(group[k].clone());
                k = k + 1;
                proof {
                    assert(group@.subrange(0, k as int) =~= group@.subrange(0, k - 1).push(
                        group@[k - 1],
                    ));
                }
            }
            proof {
                assert(group@.subrange(0, k as int) =~= group@);
                assert(self.link_line(objects@) =~= self.options.pre_link_args@ + objects@
                    + self.options.late_link_args@);
                assert(Seq::<String>::empty() + self.options.pre_link_args@
                    =~= self.options.pre_link_args@);
            }
            g = g + 1;
        }
        r
    }
}

/// The target descriptor of PowerPC Classic Mac OS (System 7 to 9).
///
/// The code generator emits big-endian 32-bit ELF objects; `ld.lld` in its
/// `pef` flavor translates them into a PEF executable whose entry symbol is
/// `__start`, and links it against `InterfaceLib`. The target has no dynamic
/// linking, no thread-local storage, no hosted standard library and no
/// unwinding.
pub fn target() -> (t: Target)
    ensures
        t.wf(),
        t.pointer_width == 32,
        t.data_layout@ == "E-m:e-p:32:32-Fn32-i64:64-n32"@,
        t.arch@ == "powerpc"@,
        t.llvm_target@ == "powerpc-apple-classic"@,
        t.metadata.description is Some && t.metadata.description.unwrap()@
            == "PowerPC Classic Mac OS (System 7-9)"@,
        t.metadata.tier == Some(3u64),
        t.metadata.host_tools == Some(false),
        t.metadata.has_std == Some(false),
        t.options.os@ == "none"@,
        t.options.vendor@ == "unknown"@,
        t.options.binary_format == BinaryFormat::Elf,
        t.options.linker_flavor == LinkerFlavor::Unix(Cc::No),
        t.options.linker is Some && t.options.linker.unwrap()@ == "ld.lld"@,
        !t.options.dynamic_linking,
        !t.options.has_rpath,
        !t.options.has_thread_local,
        !t.options.position_independent_executables,
        t.options.max_atomic_width == Some(32u64),
        t.options.endian == Endian::Big,
        t.options.cpu@ == "ppc"@,
        t.options.features@ == "-altivec,-vsx"@,
        !t.options.function_sections,
        t.options.families@.len() == 0,
        t.options.panic_strategy == PanicStrategy::Abort,
        t.options.relocation_model == RelocModel::Static,
        views(t.options.pre_link_args@) == seq!["-flavor"@, "pef"@, "-e"@, "__start"@],
        views(t.options.late_link_args@) == seq!["-lInterfaceLib"@],
{
    let options = TargetOptions {
        os: "none".to_owned(),
        vendor: "unknown".to_owned(),
        binary_format: BinaryFormat::Elf,
        linker_flavor: LinkerFlavor::Unix(Cc::No),
        linker: Some("ld.lld".to_owned()),
        dynamic_linking: false,
        has_rpath: false,
        has_thread_local: false,
        position_independent_executables: false,
        max_atomic_width: Some(32),
        endian: Endian::Big,
        cpu: "ppc".to_owned(),
        features: "-altivec,-vsx".to_owned(),
        function_sections: false,
        families: Vec::new(),
        panic_strategy: PanicStrategy::Abort,
        relocation_model: RelocModel::Static,
        pre_link_args: vec![
            "-flavor".to_owned(),
            "pef".to_owned(),
            "-e".to_owned(),
            "__start".to_owned(),
        ],
        late_link_args: vec!["-lInterfaceLib".to_owned()],
    };
    let t = Target {
        llvm_target: "powerpc-apple-classic".to_owned(),
        metadata: TargetMetadata {
            description: Some("PowerPC Classic Mac OS (System 7-9)".to_owned()),
            tier: Some(3),
            host_tools: Some(false),
            has_std: Some(false),
        },
        pointer_width: 32,
        data_layout: "E-m:e-p:32:32-Fn32-i64:64-n32".to_owned(),
        arch: "powerpc".to_owned(),
        options,
    };
    proof {
        reveal_strlit("E-m:e-p:32:32-Fn32-i64:64-n32");
        let dl = t.data_layout@;
        assert(dl.subrange(8, 10) =~= seq!['3', '2']);
        assert(seq!['3', '2'].drop_last() =~= seq!['3']);
        assert(seq!['3'].drop_last() =~= Seq::<char>::empty());
        assert(decimal_value(Seq::<char>::empty()) == 0);
        assert(decimal_value(seq!['3']) == 3);
        assert(decimal_value(seq!['3', '2']) == 32);
        assert(pointer_spec_at(dl, 6, 10, 32));
        assert(views(t.options.pre_link_args@) =~= seq!["-flavor"@, "pef"@, "-e"@, "__start"@]);
        assert(views(t.options.late_link_args@) =~= seq!["-lInterfaceLib"@]);
    }
    t
}

/// A descriptor that keeps its rules and has no dynamic linking claims neither
/// a relocatable library search path nor position-independent executables.
pub proof fn lemma_static_linking_closure(t: Target)
    requires
        t.wf(),
        !t.options.dynamic_linking,
    ensures
        !t.options.has_rpath,
        !t.options.position_independent_executables,
{
}

/// On the linker command line of any descriptor and any object files, the
/// pre-link arguments come first and in their order, the object files follow,
/// and the late-link arguments come last and in their order: every pre-link
/// argument stands strictly before every late-link argument.
pub proof fn lemma_pre_link_args_precede_late(t: Target, objects: Seq<String>)
    ensures
        ({
            let line = t.link_line(objects);
            let pre = t.options.pre_link_args@;
            let late = t.options.late_link_args@;
            &&& line.len() == pre.len() + objects.len() + late.len()
            &&& forall|i: int| 0 <= i < pre.len() ==> line[i] == pre[i]
            &&& forall|k: int| 0 <= k < objects.len() ==> line[pre.len() + k] == objects[k]
            &&& forall|j: int|
                0 <= j < late.len() ==> line[pre.len() + objects.len() + j] == late[j]
            &&& forall|i: int, j: int|
                #![trigger pre[i], late[j]]
                0 <= i < pre.len() && 0 <= j < late.len() ==> i < pre.len() + objects.len() + j
        }),
{
}

} // verus!
