use snake::food::Food;
use snake::game::{Game, Outcome, TICK_MASK};
use snake::grid::{Cell, Direction, GRID_SIZE};
use snake::render::{screen_size, TileKind, TILE_SIZE};
use snake::snake::Snake;

fn c(x: u32, y: u32) -> Cell {
    Cell::new(x, y)
}

fn snake_on(cells: &[(u32, u32)], d: Direction) -> Snake {
    let v: Vec<Cell> = cells.iter().map(|&(x, y)| c(x, y)).collect();
    Snake::from_cells(&v, d).expect("cells on the board")
}

#[test]
fn starting_snake() {
    let s = Snake::new();
    assert_eq!(s.cells(), vec![c(4, 10), c(3, 10), c(2, 10)]);
    assert_eq!(s.direction, Direction::Right);
    assert_eq!(s.next_direction, Direction::Right);
    assert_eq!(s.head(), c(4, 10));
    assert_eq!(s.len(), 3);
}

#[test]
fn one_tick_to_the_right() {
    let mut s = snake_on(&[(4, 10), (3, 10), (2, 10)], Direction::Right);
    s.tick();
    assert_eq!(s.cells(), vec![c(5, 10), c(4, 10), c(3, 10)]);
    assert_eq!(s.direction, Direction::Right);
}

#[test]
fn wraps_at_each_edge() {
    assert_eq!(c(19, 7).step(Direction::Right), c(0, 7));
    assert_eq!(c(0, 7).step(Direction::Left), c(19, 7));
    assert_eq!(c(7, 19).step(Direction::Down), c(7, 0));
    assert_eq!(c(7, 0).step(Direction::Up), c(7, 19));
    assert_eq!(c(7, 7).step(Direction::Up), c(7, 6));
    assert_eq!(c(7, 7).step(Direction::Right), c(8, 7));
}

#[test]
fn tick_wraps_the_head() {
    let mut s = snake_on(&[(19, 3), (18, 3)], Direction::Right);
    s.tick();
    assert_eq!(s.cells(), vec![c(0, 3), c(19, 3)]);
    let mut s = snake_on(&[(5, 0), (5, 1)], Direction::Up);
    s.tick();
    assert_eq!(s.cells(), vec![c(5, 19), c(5, 0)]);
}

#[test]
fn reversal_is_rejected() {
    let mut s = Snake::new();
    s.set_next_direction(Direction::Left);
    s.tick();
    assert_eq!(s.direction, Direction::Right);
    assert_eq!(s.cells(), vec![c(5, 10), c(4, 10), c(3, 10)]);
}

#[test]
fn perpendicular_turn_is_taken() {
    let mut s = Snake::new();
    s.set_next_direction(Direction::Down);
    s.tick();
    assert_eq!(s.direction, Direction::Down);
    assert_eq!(s.cells(), vec![c(4, 11), c(4, 10), c(3, 10)]);
    s.set_next_direction(Direction::Up);
    s.tick();
    assert_eq!(s.direction, Direction::Down);
    assert_eq!(s.head(), c(4, 12));
}

#[test]
fn opposites() {
    assert_eq!(Direction::Up.opposite(), Direction::Down);
    assert_eq!(Direction::Down.opposite(), Direction::Up);
    assert_eq!(Direction::Left.opposite(), Direction::Right);
    assert_eq!(Direction::Right.opposite(), Direction::Left);
}

#[test]
fn self_collision_detected() {
    let s = snake_on(&[(5, 5), (5, 5), (4, 5)], Direction::Right);
    assert!(s.is_self_colliding());
    let s = snake_on(&[(5, 5), (4, 5), (3, 5)], Direction::Right);
    assert!(!s.is_self_colliding());
    let s = snake_on(&[(5, 5), (4, 5), (4, 6), (5, 6), (5, 5)], Direction::Up);
    assert!(s.is_self_colliding());
    let s = snake_on(&[(5, 5)], Direction::Up);
    assert!(!s.is_self_colliding());
}

#[test]
fn grow_doubles_the_tail() {
    let mut s = Snake::new();
    s.grow();
    assert_eq!(s.cells(), vec![c(4, 10), c(3, 10), c(2, 10), c(2, 10)]);
    s.tick();
    assert_eq!(s.cells(), vec![c(5, 10), c(4, 10), c(3, 10), c(2, 10)]);
}

#[test]
fn from_cells_rejects_bad_input() {
    assert!(Snake::from_cells(&vec![], Direction::Up).is_none());
    assert!(Snake::from_cells(&vec![c(3, 3), c(20, 3)], Direction::Up).is_none());
    assert!(Snake::from_cells(&vec![c(3, GRID_SIZE)], Direction::Up).is_none());
    assert!(Snake::from_cells(&vec![c(19, 19)], Direction::Up).is_some());
}

#[test]
fn food_moves_on_respawn() {
    let mut f = Food::new(c(3, 3));
    assert_eq!(f.position, c(3, 3));
    f.respawn(c(11, 2));
    assert_eq!(f.position, c(11, 2));
}

#[test]
fn feeding_moves_food_and_grows() {
    let snake = snake_on(&[(3, 3), (2, 3), (1, 3)], Direction::Right);
    let mut g = Game { snake, food: Food::new(c(3, 3)), frame_count: 1 };
    assert_eq!(g.advance(&vec![]), Outcome::Eating);
    assert_eq!(g.snake.len(), 3);
    g.feed(c(7, 12));
    assert_ne!(g.food.position, c(3, 3));
    assert_eq!(g.snake.len(), 4);
    assert_eq!(g.snake.cells(), vec![c(3, 3), c(2, 3), c(1, 3), c(1, 3)]);
}

#[test]
fn eating_after_a_tick() {
    let mut g = Game::new(c(5, 10));
    assert_eq!(g.advance(&vec![]), Outcome::Eating);
    g.feed(c(0, 0));
    assert_eq!(g.snake.len(), 4);
    assert_eq!(g.advance(&vec![]), Outcome::Running);
    assert_eq!(g.snake.len(), 4);
}

#[test]
fn ticks_follow_the_mask() {
    let mut g = Game::new(c(0, 0));
    let mut ticked = vec![];
    for frame in 0..16u32 {
        let before = g.snake.head();
        assert_eq!(g.advance(&vec![]), Outcome::Running);
        if g.snake.head() != before {
            ticked.push(frame);
        }
        assert_eq!(g.frame_count, frame + 1);
        assert_eq!(g.snake.len(), 3);
    }
    let expected: Vec<u32> = (0..16u32).filter(|n| n & TICK_MASK == 0).collect();
    assert_eq!(ticked, expected);
    assert_eq!(ticked, vec![0, 2, 8, 10]);
}

#[test]
fn frame_counter_wraps() {
    let mut g = Game::new(c(0, 0));
    g.frame_count = u32::MAX;
    g.advance(&vec![]);
    assert_eq!(g.frame_count, 0);
}

#[test]
fn latest_key_press_wins() {
    let mut g = Game::new(c(0, 0));
    g.frame_count = 1;
    assert_eq!(g.advance(&vec![Direction::Up, Direction::Down]), Outcome::Running);
    assert_eq!(g.snake.next_direction, Direction::Down);
    assert_eq!(g.snake.direction, Direction::Right);
    assert_eq!(g.advance(&vec![]), Outcome::Running);
    assert_eq!(g.snake.next_direction, Direction::Down);
    assert_eq!(g.snake.direction, Direction::Down);
    assert_eq!(g.snake.head(), c(4, 11));
}

#[test]
fn collision_ends_the_frame() {
    let snake = snake_on(&[(5, 5), (5, 6), (6, 6), (6, 5), (6, 4)], Direction::Up);
    let mut g = Game { snake, food: Food::new(c(0, 0)), frame_count: 0 };
    g.snake.set_next_direction(Direction::Right);
    assert_eq!(g.advance(&vec![]), Outcome::Collided);
    assert_eq!(g.snake.head(), c(6, 5));
}

#[test]
fn tiles_of_a_frame() {
    let g = Game::new(c(1, 2));
    let t = g.tiles();
    assert_eq!(t.len(), 4);
    assert_eq!((t[0].x, t[0].y, t[0].size, t[0].kind), (64, 160, 16, TileKind::Head));
    assert_eq!((t[1].x, t[1].y, t[1].kind), (48, 160, TileKind::Body));
    assert_eq!((t[2].x, t[2].y, t[2].kind), (32, 160, TileKind::Body));
    assert_eq!((t[3].x, t[3].y, t[3].size, t[3].kind), (16, 32, TILE_SIZE, TileKind::Food));
    assert_eq!(screen_size(), 320);
}
