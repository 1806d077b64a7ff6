use render_pass::{
    default_color_ops, default_stencil_ops, AttachmentOperations, Builder, Color,
    ColorAttachmentDescriptor, DepthStencilAttachmentDescriptor, LoadAction,
    RenderPassDescriptor,
};

#[derive(Debug, PartialEq, Eq)]
struct Handle(u32);

/// Stands for a command encoder: it counts the passes opened on it.
#[derive(Debug)]
struct Encoder {
    opened: u32,
}

/// Stands for a pass handle: it remembers which pass of the encoder it is and what it got.
#[derive(Debug, PartialEq, Eq)]
struct Pass<'a> {
    number: u32,
    descriptor: RenderPassDescriptor<'a, Handle>,
}

fn open<'a>(encoder: &'a mut Encoder, descriptor: RenderPassDescriptor<'a, Handle>) -> Pass<'a> {
    encoder.opened += 1;
    Pass { number: encoder.opened, descriptor }
}

#[test]
fn new_builder_is_empty() {
    let (colors, depth_stencil) = Builder::<Handle>::new().into_inner();
    assert_eq!(colors, vec![]);
    assert_eq!(depth_stencil, None);
}

#[test]
fn default_builder_is_empty() {
    let (colors, depth_stencil) = Builder::<Handle>::default().into_inner();
    assert!(colors.is_empty());
    assert!(depth_stencil.is_none());
}

#[test]
fn color_attachments_come_out_in_call_order() {
    let views: Vec<Handle> = (0..6).map(Handle).collect();
    for n in 0..=views.len() {
        let mut builder = Builder::new();
        for view in &views[..n] {
            builder = builder.color_attachment(view, |b| b);
        }
        let (colors, depth_stencil) = builder.into_inner();
        assert_eq!(colors.len(), n);
        for (slot, descriptor) in colors.iter().enumerate() {
            assert_eq!(descriptor.view, &views[slot]);
            assert_eq!(descriptor.resolve_target, None);
            assert_eq!(descriptor.ops, default_color_ops());
        }
        assert_eq!(depth_stencil, None);
    }
}

#[test]
fn color_attachments_keep_their_own_configuration() {
    let first = Handle(10);
    let second = Handle(20);
    let third = Handle(30);
    let load = AttachmentOperations { load: LoadAction::Load, store: true };
    let (colors, _) = Builder::new()
        .color_attachment(&first, |b| b.ops(load))
        .color_attachment(&second, |b| b.resolve_target_handle(Some(&first)))
        .color_attachment(&third, |b| b)
        .into_inner();
    assert_eq!(
        colors,
        vec![
            ColorAttachmentDescriptor { view: &first, resolve_target: None, ops: load },
            ColorAttachmentDescriptor {
                view: &second,
                resolve_target: Some(&first),
                ops: default_color_ops(),
            },
            ColorAttachmentDescriptor {
                view: &third,
                resolve_target: None,
                ops: default_color_ops(),
            },
        ]
    );
}

#[test]
fn the_same_view_may_be_attached_twice() {
    let view = Handle(1);
    let (colors, _) =
        Builder::new().color_attachment(&view, |b| b).color_attachment(&view, |b| b).into_inner();
    assert_eq!(colors.len(), 2);
    assert_eq!(colors[0], colors[1]);
}

#[test]
fn one_color_and_one_depth_stencil_attachment() {
    let v = Handle(1);
    let d = Handle(2);
    let (colors, depth_stencil) = Builder::new()
        .color_attachment(&v, |color| color)
        .depth_stencil_attachment(&d, |depth| {
            depth.depth_ops(Some(AttachmentOperations { load: LoadAction::Load, store: false }))
        })
        .into_inner();
    assert_eq!(
        colors,
        vec![ColorAttachmentDescriptor {
            view: &v,
            resolve_target: None,
            ops: AttachmentOperations {
                load: LoadAction::Clear(Color { r: 0, g: 0, b: 0, a: 0 }),
                store: true,
            },
        }]
    );
    assert_eq!(
        depth_stencil,
        Some(DepthStencilAttachmentDescriptor {
            view: &d,
            depth_ops: Some(AttachmentOperations { load: LoadAction::Load, store: false }),
            stencil_ops: Some(AttachmentOperations { load: LoadAction::Clear(0), store: true }),
        })
    );
}

#[test]
fn color_and_depth_stencil_calls_may_interleave() {
    let a = Handle(1);
    let b = Handle(2);
    let early = Handle(3);
    let late = Handle(4);
    let (colors, depth_stencil) = Builder::new()
        .depth_stencil_attachment(&early, |d| d)
        .color_attachment(&a, |c| c)
        .depth_stencil_attachment(&late, |d| d.depth_ops(None))
        .color_attachment(&b, |c| c)
        .into_inner();
    assert_eq!(colors.len(), 2);
    assert_eq!(colors[0].view, &Handle(1));
    assert_eq!(colors[1].view, &Handle(2));
    assert_eq!(
        depth_stencil,
        Some(DepthStencilAttachmentDescriptor {
            view: &late,
            depth_ops: None,
            stencil_ops: Some(default_stencil_ops()),
        })
    );
}

#[test]
fn begin_without_attachments_opens_an_empty_pass() {
    let mut encoder = Encoder { opened: 0 };
    let pass = Builder::new().begin(&mut encoder, open);
    assert_eq!(pass.number, 1);
    assert_eq!(pass.descriptor.color_attachments, vec![]);
    assert_eq!(pass.descriptor.depth_stencil_attachment, None);
}

#[test]
fn begin_hands_over_exactly_what_was_collected() {
    let v = Handle(1);
    let w = Handle(2);
    let d = Handle(3);
    let mut encoder = Encoder { opened: 4 };
    let load = AttachmentOperations { load: LoadAction::Load, store: true };
    let pass = Builder::new()
        .color_attachment(&v, |c| c)
        .color_attachment(&w, |c| c.ops(load).resolve_target_handle(Some(&v)))
        .depth_stencil_attachment(&d, |s| s.stencil_ops(None))
        .begin(&mut encoder, open);
    let (colors, depth_stencil) = Builder::new()
        .color_attachment(&v, |c| c)
        .color_attachment(&w, |c| c.ops(load).resolve_target_handle(Some(&v)))
        .depth_stencil_attachment(&d, |s| s.stencil_ops(None))
        .into_inner();
    assert_eq!(
        pass,
        Pass {
            number: 5,
            descriptor: RenderPassDescriptor {
                color_attachments: colors,
                depth_stencil_attachment: depth_stencil,
            },
        }
    );
    assert_eq!(pass.descriptor.color_attachments[1].view, &Handle(2));
    assert_eq!(pass.descriptor.color_attachments[1].resolve_target, Some(&Handle(1)));
}

#[test]
fn begin_returns_what_the_encoder_returned() {
    let v = Handle(1);
    let mut encoder = Encoder { opened: 0 };
    let slots = Builder::new()
        .color_attachment(&v, |c| c)
        .color_attachment(&v, |c| c)
        .begin(&mut encoder, |e: &mut Encoder, descriptor| {
            e.opened += 10;
            descriptor.color_attachments.len()
        });
    assert_eq!(slots, 2);
    assert_eq!(encoder.opened, 10);
}

#[test]
fn begin_calls_the_encoder_once() {
    let mut encoder = Encoder { opened: 0 };
    let pass = Builder::<Handle>::new().begin(&mut encoder, open);
    assert_eq!(pass.number, 1);
    assert_eq!(encoder.opened, 1);
}

#[test]
fn builders_can_be_debug_printed() {
    let v = Handle(1);
    let text = format!("{:?}", Builder::new().color_attachment(&v, |c| c));
    assert!(text.contains("Handle(1)"));
}
