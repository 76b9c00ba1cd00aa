use dwell::animation::vertical_animation_from_texture_idx;
use dwell::animation::Animation;
use dwell::character::Character;
use dwell::draw::DrawCommand;
use dwell::rect::Rect;
use std::time::Instant;

fn witch_animations() -> Vec<Animation> {
    vec![
        vertical_animation_from_texture_idx(1, 32, 48, 6, 1_000),
        vertical_animation_from_texture_idx(2, 48, 48, 5, 1_000),
        vertical_animation_from_texture_idx(3, 32, 48, 8, 1_000),
    ]
}

fn witch_dest_rects() -> Vec<Rect> {
    vec![
        Rect::new(-40, 468, 336, 504),
        Rect::new(-124, 468, 504, 504),
        Rect::new(-40, 468, 336, 504),
    ]
}

#[test]
fn new_character_selects_the_second_animation_and_placement() {
    let c = Character::new(witch_animations(), witch_dest_rects());
    assert_eq!(c.current_animation_idx(), 1);
    assert_eq!(c.current_dest_rect(), 1);
    assert_eq!(c.animations().len(), 3);
    assert_eq!(c.dest_rects(), &witch_dest_rects());
    assert_eq!(c.animations()[1].texture_idx(), 2);
    assert!(c.is_wf());
}

#[test]
fn character_with_one_animation_is_not_well_formed() {
    let c = Character::new(
        vec![vertical_animation_from_texture_idx(0, 8, 8, 2, 1)],
        vec![Rect::new(0, 0, 8, 8)],
    );
    assert_eq!(c.current_animation_idx(), 1);
    assert_eq!(c.current_dest_rect(), 1);
    assert!(!c.is_wf());
}

#[test]
fn character_with_one_placement_is_not_well_formed() {
    let c = Character::new(witch_animations(), vec![Rect::new(0, 0, 8, 8)]);
    assert!(!c.is_wf());
}

#[test]
fn empty_animation_matters_only_while_it_plays() {
    let mut animations = witch_animations();
    animations[2] = Animation::new(Vec::new(), 1, 0);
    let mut c = Character::new(animations, witch_dest_rects());
    assert!(c.is_wf());
    c.set_current_animation_idx(2);
    assert!(!c.is_wf());
    c.set_current_animation_idx(0);
    assert!(c.is_wf());
}

#[test]
fn character_whose_second_animation_is_empty_is_not_well_formed() {
    let mut animations = witch_animations();
    animations[1] = Animation::new(Vec::new(), 1, 0);
    let c = Character::new(animations, witch_dest_rects());
    assert!(!c.is_wf());
    assert!(!c.is_drawable(usize::MAX));
}

#[test]
fn selectors_are_set_one_by_one() {
    let mut c = Character::new(witch_animations(), witch_dest_rects());
    c.set_current_animation_idx(2);
    assert_eq!(c.current_animation_idx(), 2);
    assert_eq!(c.current_dest_rect(), 1);
    c.set_current_dest_rect(0);
    assert_eq!(c.current_animation_idx(), 2);
    assert_eq!(c.current_dest_rect(), 0);
    assert!(c.is_wf());
    c.set_current_animation_idx(3);
    assert_eq!(c.current_animation_idx(), 3);
    assert!(!c.is_wf());
    c.set_current_animation_idx(0);
    c.set_current_dest_rect(3);
    assert!(!c.is_wf());
}

#[test]
fn draw_command_shows_the_active_animation_at_the_active_placement() {
    let mut c = Character::new(witch_animations(), witch_dest_rects());
    assert_eq!(
        c.draw_command(),
        DrawCommand::Sprite {
            texture_idx: 2,
            source: Rect::new(0, 0, 48, 48),
            dest: Rect::new(-124, 468, 504, 504),
        }
    );
    c.set_current_animation_idx(0);
    c.set_current_dest_rect(2);
    assert_eq!(
        c.draw_command(),
        DrawCommand::Sprite {
            texture_idx: 1,
            source: Rect::new(0, 0, 32, 48),
            dest: Rect::new(-40, 468, 336, 504),
        }
    );
}

#[test]
fn character_step_moves_the_active_animation_only() {
    let mut c = Character::new(witch_animations(), witch_dest_rects());
    let now = Instant::now();
    c.advance_after(999, now);
    assert_eq!(c.animations()[1].current_frame(), 0);
    c.advance_after(1_000, now);
    assert_eq!(c.animations()[0].current_frame(), 0);
    assert_eq!(c.animations()[1].current_frame(), 1);
    assert_eq!(c.animations()[1].last_instant(), now);
    assert_eq!(c.animations()[2].current_frame(), 0);
    assert_eq!(c.current_animation_idx(), 1);
    assert_eq!(c.current_dest_rect(), 1);
    assert_eq!(
        c.draw_command(),
        DrawCommand::Sprite {
            texture_idx: 2,
            source: Rect::new(0, 48, 48, 48),
            dest: Rect::new(-124, 468, 504, 504),
        }
    );
}

#[test]
fn character_step_by_the_clock() {
    let mut animations = witch_animations();
    animations[1] = vertical_animation_from_texture_idx(2, 48, 48, 5, 0);
    let mut c = Character::new(animations, witch_dest_rects());
    c.advance();
    c.advance();
    assert_eq!(c.animations()[0].current_frame(), 0);
    assert_eq!(c.animations()[1].current_frame(), 2);
    assert_eq!(c.animations()[2].current_frame(), 0);
    assert!(c.is_wf());
}

#[test]
fn character_is_drawable_when_the_playing_animation_has_its_texture() {
    let mut c = Character::new(witch_animations(), witch_dest_rects());
    assert!(c.is_drawable(3));
    assert!(c.is_drawable(usize::MAX));
    assert!(!c.is_drawable(2));
    assert!(!c.is_drawable(0));
    c.set_current_animation_idx(2);
    assert!(c.is_drawable(4));
    assert!(!c.is_drawable(3));
    c.set_current_dest_rect(5);
    assert!(!c.is_drawable(4));
    let nobody = Character::new(Vec::new(), Vec::new());
    assert!(!nobody.is_drawable(usize::MAX));
}
