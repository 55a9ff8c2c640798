use pool::grid::Grid;

fn lines(rows: &[&str]) -> Vec<Vec<char>> {
    rows.iter().map(|r| r.chars().collect()).collect()
}

fn row(g: &Grid, y: usize) -> String {
    g.grid[y * g.width..(y + 1) * g.width].iter().collect()
}

#[test]
fn rows_are_padded_to_one_past_the_longest() {
    let g = Grid::from_lines(&lines(&["ab", "", "cdef"])).unwrap();
    assert_eq!(g.width, 5);
    assert_eq!(g.height, 3);
    assert_eq!(g.grid.len(), 15);
    assert_eq!(row(&g, 0), "ab   ");
    assert_eq!(row(&g, 1), "     ");
    assert_eq!(row(&g, 2), "cdef ");
    assert_eq!(g.at(3, 2), 'f');
    assert_eq!(g.index(2 * 5 + 1), 'd');
}

#[test]
fn start_is_the_first_marker_in_row_major_order() {
    let g = Grid::from_lines(&lines(&["abc", "x.y.", "."])).unwrap();
    assert_eq!((g.x0, g.y0), (1, 1));
    let g = Grid::from_lines(&lines(&["  .", ". "])).unwrap();
    assert_eq!((g.x0, g.y0), (2, 0));
}

#[test]
fn start_defaults_to_the_origin() {
    let g = Grid::from_lines(&lines(&["12", "34"])).unwrap();
    assert_eq!((g.x0, g.y0), (0, 0));
}

#[test]
fn no_lines_give_an_empty_grid() {
    let g = Grid::from_lines(&lines(&[])).unwrap();
    assert_eq!((g.width, g.height, g.grid.len()), (1, 0, 0));
    assert_eq!((g.x0, g.y0), (0, 0));
}
