use vstd::prelude::*;

verus! {

/// The two kinds of register a scan can address.
#[derive(Clone, Copy, Debug, PartialEq, Eq, Structural)]
pub enum Register {
    Instruction,
    Data,
}

/// The sticky vectors of one register: what later scans reuse until a
/// command gives a new value.
#[derive(Debug)]
pub struct RegisterContext {
    /// Selects the input bits that are driven.
    pub smask: Vec<u8>,
    /// Selects the captured bits that are compared.
    pub mask: Vec<u8>,
    /// The data shifted in.
    pub tdi: Vec<u8>,
}

/// The contents of a [`RegisterContext`].
pub struct RegisterView {
    pub smask: Seq<u8>,
    pub mask: Seq<u8>,
    pub tdi: Seq<u8>,
}

/// The value an optional vector gives, as a sequence.
pub open spec fn opt_seq(o: Option<Vec<u8>>) -> Option<Seq<u8>> {
    match o {
        Some(v) => Some(v@),
        None => None,
    }
}

/// The value a sticky field takes: the new one where given, else the old one.
pub open spec fn sticky(old: Seq<u8>, new: Option<Seq<u8>>) -> Seq<u8> {
    match new {
        Some(v) => v,
        None => old,
    }
}

impl RegisterView {
    /// The context after an update that gives some of the three fields.
    pub open spec fn updated(
        self,
        smask: Option<Seq<u8>>,
        mask: Option<Seq<u8>>,
        tdi: Option<Seq<u8>>,
    ) -> RegisterView {
        RegisterView {
            smask: sticky(self.smask, smask),
            mask: sticky(self.mask, mask),
            tdi: sticky(self.tdi, tdi),
        }
    }
}

impl View for RegisterContext {
    type V = RegisterView;

    open spec fn view(&self) -> RegisterView {
        RegisterView { smask: self.smask@, mask: self.mask@, tdi: self.tdi@ }
    }
}

impl RegisterContext {
    /// A context whose three vectors are empty.
    pub fn new() -> (r: RegisterContext)
        ensures
            r@.smask.len() == 0,
            r@.mask.len() == 0,
            r@.tdi.len() == 0,
    {
        RegisterContext { smask: Vec::new(), mask: Vec::new(), tdi: Vec::new() }
    }

    /// Replaces the fields that are given and keeps the others.
    pub fn apply_update(
        &mut self,
        smask: Option<Vec<u8>>,
        mask: Option<Vec<u8>>,
        tdi: Option<Vec<u8>>,
    )
        ensures
            final(self)@ == old(self)@.updated(opt_seq(smask), opt_seq(mask), opt_seq(tdi)),
    {
        if let Some(v) = smask {
            self.smask = v;
        }
        if let Some(v) = mask {
            self.mask = v;
        }
        if let Some(v) = tdi {
            self.tdi = v;
        }
    }
}

/// An update that gives only the input data leaves both masks as they were,
/// and an update that gives no field leaves the context unchanged.
pub proof fn lemma_update_sticky(ctx: RegisterView, tdi: Seq<u8>)
    ensures
        ctx.updated(None, None, Some(tdi)).smask == ctx.smask,
        ctx.updated(None, None, Some(tdi)).mask == ctx.mask,
        ctx.updated(None, None, Some(tdi)).tdi == tdi,
        ctx.updated(None, None, None) == ctx,
{
}

} // verus!
